//! The key handler's transitions, as functions on session values.
use vstd::prelude::*;
use crate::cursor::{without_last, CursorView};
use crate::event_state::{Confirm, EventState, EventType, Mode, SubMode, Tab};
use crate::list::{next_index, previous_index, ListView, State};
use crate::protocol::{AppError, Key, Reply, RequestView, StepView};
use crate::session::AppView;

verus! {

pub open spec fn is_right(key: Key) -> bool {
    key == Key::Right || key == Key::Char('l')
}

pub open spec fn is_left(key: Key) -> bool {
    key == Key::Left || key == Key::Char('h')
}

pub open spec fn is_down(key: Key) -> bool {
    key == Key::Down || key == Key::Char('j')
}

pub open spec fn is_up(key: Key) -> bool {
    key == Key::Up || key == Key::Char('k')
}

/// Enter and Space confirm and descend.
pub open spec fn is_confirm(key: Key) -> bool {
    key == Key::Enter || key == Key::Char(' ')
}

pub open spec fn idle(v: AppView) -> (AppView, StepView) {
    (v, StepView::Idle)
}

/// Right: from a selected namespace into its commands; with no namespace
/// selected, to the next tab; with no namespaces at all, nothing.
pub open spec fn move_right(v: AppView) -> (AppView, StepView) {
    if v.namespaces.items.len() == 0 {
        idle(v)
    } else if v.namespaces.selected is Some {
        idle(
            AppView {
                namespaces: v.namespaces.with_focus(false),
                commands: v.commands.focused_on_first(),
                tags: v.tags.focused_on_first(),
                ..v
            },
        )
    } else {
        idle(v.with_tabs(v.tabs.after_next()))
    }
}

/// Left: from the commands back to the namespaces, from the namespaces back
/// to the tab row, and from the tab row to the previous tab.
pub open spec fn move_left(v: AppView) -> (AppView, StepView) {
    if v.commands.is_selected {
        idle(
            AppView {
                namespaces: v.namespaces.with_focus(true),
                commands: v.commands.cleared(),
                tags: v.tags.cleared(),
                ..v
            },
        )
    } else if v.namespaces.is_selected || v.namespaces.selected is Some {
        idle(
            AppView {
                namespaces: v.namespaces.cleared(),
                commands: v.commands.cleared(),
                tags: v.tags.cleared(),
                ..v.with_tab_focus(true)
            },
        )
    } else {
        idle(v.with_tabs(v.tabs.after_previous()))
    }
}

/// The namespace that a step down (or up) selects.
pub open spec fn namespace_target(v: AppView, forward: bool) -> usize {
    let n = v.namespaces.items.len();
    let t = if forward { next_index(v.namespaces.selected, n) } else { previous_index(v.namespaces.selected, n) };
    match t {
        Some(i) => i,
        None => 0,
    }
}

/// Down (`forward`) or up: commands and tags step together; otherwise the
/// next (or previous) namespace, or the first one when none is selected, is
/// selected once its commands and tags are loaded.
pub open spec fn move_vertical(v: AppView, forward: bool) -> (AppView, StepView) {
    if v.namespaces.items.len() == 0 {
        idle(v)
    } else if v.commands.is_selected {
        if v.commands.items.len() > 0 {
            idle(
                AppView {
                    commands: if forward { v.commands.forward() } else { v.commands.backward() },
                    tags: if forward { v.tags.forward() } else { v.tags.backward() },
                    ..v
                },
            )
        } else {
            idle(v)
        }
    } else {
        let i = namespace_target(v, forward);
        (v, StepView::Store(RequestView::LoadCommands { index: i, namespace: v.namespaces.items[i as int]@ }))
    }
}

/// Enter: commits an armed prompt, arms it on a selected command, or descends
/// from a focused namespace into its commands.
pub open spec fn enter(v: AppView) -> (AppView, StepView) {
    if v.event_state.confirm == Confirm::Display {
        match v.commands.selected {
            Some(i) => if i < v.commands.items.len() && i < v.tags.items.len() {
                (
                    v.with_state(EventState { confirm: Confirm::Confirmed, ..v.event_state }),
                    StepView::Run(v.commands.items[i as int]@, v.tags.items[i as int]@),
                )
            } else {
                idle(v.with_state(EventState { confirm: Confirm::Hide, ..v.event_state }))
            },
            None => idle(v.with_state(EventState { confirm: Confirm::Hide, ..v.event_state })),
        }
    } else if v.commands.is_selected {
        if v.commands.selected is Some {
            idle(
                AppView {
                    commands: v.commands.with_focus(false),
                    tags: v.tags.with_focus(false),
                    event_state: EventState { confirm: Confirm::Display, ..v.event_state },
                    ..v
                },
            )
        } else {
            idle(v)
        }
    } else if v.namespaces.is_selected {
        idle(
            AppView {
                namespaces: v.namespaces.with_focus(false),
                commands: v.commands.focused_on_first(),
                tags: v.tags.focused_on_first(),
                ..v
            },
        )
    } else {
        idle(v)
    }
}

/// Esc: leaves add and delete mode without storing anything; in normal mode
/// disarms the prompt, or else drops all focus back to the tab row.
pub open spec fn esc(v: AppView) -> (AppView, StepView) {
    match v.event_state.mode {
        Mode::Add => idle(v.without_inputs().normal()),
        Mode::Delete => idle(v.normal()),
        Mode::Normal => if v.event_state.confirm == Confirm::Display {
            idle(
                AppView {
                    commands: v.commands.with_focus(true),
                    tags: v.tags.with_focus(true),
                    ..v.normal()
                },
            )
        } else if v.commands.is_selected || v.namespaces.is_selected {
            idle(
                AppView {
                    namespaces: v.namespaces.cleared(),
                    commands: v.commands.cleared(),
                    tags: v.tags.cleared(),
                    ..v.with_tab_focus(true).normal()
                },
            )
        } else {
            idle(v.normal())
        },
    }
}

/// The add wizard, started on the given kind of entry.
pub open spec fn adding(v: AppView, kind: SubMode, field: EventType) -> AppView {
    v.with_state(
        EventState {
            confirm: Confirm::Hide,
            event_type: field,
            mode: Mode::Add,
            sub_mode: kind,
            tab: v.event_state.tab,
        },
    )
}

/// `n`: start adding a namespace.
pub open spec fn add_namespace_mode(v: AppView) -> (AppView, StepView) {
    idle(adding(v, SubMode::Namespace, EventType::Namespace))
}

/// `a`: start adding a command, once a namespace is selected.
pub open spec fn add_command_mode(v: AppView) -> (AppView, StepView) {
    if v.namespaces.selected is Some {
        idle(adding(v, SubMode::Command, EventType::Command))
    } else {
        idle(v)
    }
}

/// `d`: arm the deletion of the focused command or namespace.
pub open spec fn delete_mode(v: AppView) -> (AppView, StepView) {
    if v.commands.is_selected || v.namespaces.is_selected {
        idle(v.with_state(EventState { mode: Mode::Delete, confirm: Confirm::Display, ..v.event_state }))
    } else {
        idle(v)
    }
}

/// Normal mode on the first tab. While the prompt is armed only Enter and
/// Space act.
pub open spec fn normal_mode(v: AppView, key: Key) -> (AppView, StepView) {
    if v.event_state.confirm == Confirm::Display && !is_confirm(key) {
        idle(v)
    } else if is_right(key) {
        move_right(v)
    } else if is_left(key) {
        move_left(v)
    } else if is_down(key) {
        move_vertical(v, true)
    } else if is_up(key) {
        move_vertical(v, false)
    } else if is_confirm(key) {
        enter(v)
    } else if key == Key::Char('n') {
        add_namespace_mode(v)
    } else if key == Key::Char('a') {
        add_command_mode(v)
    } else if key == Key::Char('d') {
        delete_mode(v)
    } else {
        idle(v)
    }
}

/// The cursor after a typed character; one at the machine's limits stays.
pub open spec fn cursor_pushed(c: Option<CursorView>) -> Option<CursorView> {
    match c {
        Some(cv) => if cv.x < usize::MAX && cv.y < usize::MAX && cv.len < usize::MAX {
            Some(cv.pushed())
        } else {
            c
        },
        None => None,
    }
}

pub open spec fn cursor_popped(c: Option<CursorView>) -> Option<CursorView> {
    match c {
        Some(cv) => Some(cv.popped()),
        None => None,
    }
}

/// A character or Backspace typed into the field being filled.
pub open spec fn edit(v: AppView, key: Key) -> (AppView, StepView) {
    let field = v.event_state.event_type;
    match key {
        Key::Char(c) => idle(
            AppView { cursor: cursor_pushed(v.cursor), ..v.with_input(field, v.input_of(field).push(c)) },
        ),
        Key::Backspace => idle(
            AppView { cursor: cursor_popped(v.cursor), ..v.with_input(field, without_last(v.input_of(field))) },
        ),
        _ => idle(v),
    }
}

/// Add mode: typing fills the current field; Enter on an empty field is
/// refused. Enter on a namespace name asks whether it exists; on a command it
/// moves on to the tag; on a tag it arms the prompt, and a confirm key then
/// asks for the command and tag to be stored under the selected namespace.
pub open spec fn add_mode(v: AppView, key: Key) -> (AppView, StepView) {
    let field = v.event_state.event_type;
    if field == EventType::Idle {
        idle(v)
    } else if field == EventType::Tag && v.event_state.confirm == Confirm::Display {
        if is_confirm(key) {
            match v.namespaces.selected {
                Some(j) => if j < v.namespaces.items.len() {
                    (
                        v,
                        StepView::Store(
                            RequestView::CreateCommand {
                                command: v.command_input,
                                tag: v.tag_input,
                                namespace: v.namespaces.items[j as int]@,
                            },
                        ),
                    )
                } else {
                    idle(v.without_inputs().normal())
                },
                None => idle(v.without_inputs().normal()),
            }
        } else {
            idle(v)
        }
    } else if key == Key::Enter {
        if v.input_of(field).len() == 0 {
            idle(v.failing(AppError::EmptyInput))
        } else if field == EventType::Namespace {
            (v, StepView::Store(RequestView::FindNamespace(v.namespace_input)))
        } else if field == EventType::Command {
            idle(AppView { cursor: None, ..v.with_state(EventState { event_type: EventType::Tag, ..v.event_state }) })
        } else {
            idle(v.with_state(EventState { confirm: Confirm::Display, ..v.event_state }))
        }
    } else {
        edit(v, key)
    }
}

/// Delete mode: a confirm key asks for the focused command, or else the
/// focused namespace, to be removed; with nothing to remove it leaves the mode.
pub open spec fn delete_key(v: AppView, key: Key) -> (AppView, StepView) {
    if !is_confirm(key) {
        idle(v)
    } else if v.commands.is_selected && v.commands.selected is Some && v.namespaces.selected is Some
        && v.commands.selected->0 < v.commands.items.len()
        && v.namespaces.selected->0 < v.namespaces.items.len() {
        (
            v,
            StepView::Store(
                RequestView::DeleteCommand {
                    command: v.commands.items[v.commands.selected->0 as int]@,
                    namespace: v.namespaces.items[v.namespaces.selected->0 as int]@,
                },
            ),
        )
    } else if v.namespaces.is_selected && v.namespaces.selected is Some
        && v.namespaces.selected->0 < v.namespaces.items.len() {
        (
            v,
            StepView::Store(
                RequestView::DeleteNamespace(v.namespaces.items[v.namespaces.selected->0 as int]@),
            ),
        )
    } else {
        idle(v.normal())
    }
}

/// The other tabs only move between tabs.
pub open spec fn other_tab(v: AppView, key: Key) -> (AppView, StepView) {
    if is_right(key) {
        idle(v.with_tabs(v.tabs.after_next()))
    } else if is_left(key) {
        idle(v.with_tabs(v.tabs.after_previous()))
    } else {
        idle(v)
    }
}

/// One key press. The previous error is dropped first. `q` quits in normal
/// and delete mode only, so that typed text is never lost by accident; Esc
/// acts in every mode.
pub open spec fn key_step(v0: AppView, key: Key) -> (AppView, StepView) {
    let v = AppView { error: None, ..v0 };
    if key == Key::Char('q') && (v.event_state.mode == Mode::Normal || v.event_state.mode == Mode::Delete) {
        (v, StepView::Quit)
    } else if key == Key::Esc {
        esc(v)
    } else if v.event_state.tab != Tab::Tab1 {
        other_tab(v, key)
    } else {
        match v.event_state.mode {
            Mode::Normal => normal_mode(v, key),
            Mode::Add => add_mode(v, key),
            Mode::Delete => delete_key(v, key),
        }
    }
}

/// Commands and tags as storage returned them; they must be index-aligned.
pub open spec fn aligned(c: Vec<String>, t: Vec<String>) -> bool {
    c@.len() == t@.len()
}

/// What a storage reply does to the session. A failure leaves everything but
/// the error as it was, and so does a reply that does not fit the request.
pub open spec fn reply_step(v: AppView, request: RequestView, reply: Result<Reply, String>) -> (AppView, StepView) {
    match reply {
        Err(msg) => idle(v.failing(AppError::Storage(msg))),
        Ok(r) => match (request, r) {
            (RequestView::LoadCommands { index, .. }, Reply::Entries(c, t)) => {
                if index < v.namespaces.items.len() && aligned(c, t) {
                    idle(
                        AppView {
                            namespaces: ListView { selected: Some(index), is_selected: true, ..v.namespaces },
                            commands: ListView::fresh(c@),
                            tags: ListView::fresh(t@),
                            ..v.with_tab_focus(false)
                        },
                    )
                } else {
                    idle(v.failing(AppError::UnexpectedReply))
                }
            },
            (RequestView::FindNamespace(name), Reply::Found(found)) => {
                if found {
                    idle(v.failing(AppError::NamespaceExists))
                } else {
                    (v, StepView::Store(RequestView::CreateNamespace(name)))
                }
            },
            (RequestView::CreateNamespace(_), Reply::Namespaces(list)) => idle(
                AppView {
                    namespaces: ListView::fresh(list@),
                    commands: v.commands.cleared(),
                    tags: v.tags.cleared(),
                    ..v.with_tab_focus(true).without_inputs().normal()
                },
            ),
            (RequestView::CreateCommand { .. }, Reply::Entries(c, t)) => {
                if aligned(c, t) {
                    idle(
                        AppView {
                            namespaces: v.namespaces.with_focus(true),
                            commands: ListView::fresh(c@),
                            tags: ListView::fresh(t@),
                            ..v.without_inputs().normal()
                        },
                    )
                } else {
                    idle(v.failing(AppError::UnexpectedReply))
                }
            },
            (RequestView::DeleteCommand { .. }, Reply::Entries(c, t)) => {
                if aligned(c, t) {
                    idle(
                        AppView {
                            commands: ListView::fresh(c@).focused_on_first(),
                            tags: ListView::fresh(t@).focused_on_first(),
                            ..v.normal()
                        },
                    )
                } else {
                    idle(v.failing(AppError::UnexpectedReply))
                }
            },
            (RequestView::DeleteNamespace(_), Reply::Namespaces(list)) => {
                let base = AppView {
                    namespaces: ListView::fresh(list@),
                    commands: ListView::fresh(Seq::empty()),
                    tags: ListView::fresh(Seq::empty()),
                    ..v.normal()
                };
                if list@.len() > 0 {
                    (
                        AppView { namespaces: base.namespaces.with_focus(true), ..base },
                        StepView::Store(RequestView::LoadCommands { index: 0, namespace: list@[0]@ }),
                    )
                } else {
                    idle(base.with_tab_focus(true))
                }
            },
            _ => idle(v.failing(AppError::UnexpectedReply)),
        },
    }
}

} // verus!
