use vstd::prelude::*;
use crate::config::NameConfig;
use crate::cursor::{CursorPosition, CursorView};
use crate::event_state::{normal_on, EventState, EventType, Tab};
use crate::list::{ListView, StatefulList, TabsState};
use crate::protocol::AppError;

verus! {

/// The tab shown at position `index` of the tab row.
pub open spec fn tab_of(index: usize) -> Tab {
    if index == 0 {
        Tab::Tab1
    } else if index == 1 {
        Tab::Tab2
    } else {
        Tab::Tab3
    }
}

/// Everything the interface shows: the tabs, the interaction state, the three
/// lists, the text typed into each field of the add wizard, the input cursor
/// and the last error.
pub struct App {
    pub tabs: TabsState,
    pub event_state: EventState,
    pub namespaces: StatefulList<String>,
    pub commands: StatefulList<String>,
    pub tags: StatefulList<String>,
    pub namespace_input: Vec<char>,
    pub command_input: Vec<char>,
    pub tag_input: Vec<char>,
    pub cursor_position: Option<CursorPosition>,
    pub error: Option<AppError>,
}

/// The session as values: lists as sequences, text fields as character sequences.
pub struct AppView {
    pub tabs: TabsState,
    pub event_state: EventState,
    pub namespaces: ListView<String>,
    pub commands: ListView<String>,
    pub tags: ListView<String>,
    pub namespace_input: Seq<char>,
    pub command_input: Seq<char>,
    pub tag_input: Seq<char>,
    pub cursor: Option<CursorView>,
    pub error: Option<AppError>,
}

impl View for App {
    type V = AppView;

    open spec fn view(&self) -> AppView {
        AppView {
            tabs: self.tabs,
            event_state: self.event_state,
            namespaces: self.namespaces@,
            commands: self.commands@,
            tags: self.tags@,
            namespace_input: self.namespace_input@,
            command_input: self.command_input@,
            tag_input: self.tag_input@,
            cursor: match self.cursor_position {
                Some(c) => Some(c@),
                None => None,
            },
            error: self.error,
        }
    }
}

impl AppView {
    /// The given tab row, with the interaction state on the tab it shows.
    pub open spec fn with_tabs(self, tabs: TabsState) -> AppView {
        AppView { tabs, event_state: EventState { tab: tab_of(tabs.index), ..self.event_state }, ..self }
    }

    /// The tab row with its focus flag set as given.
    pub open spec fn with_tab_focus(self, is_selected: bool) -> AppView {
        AppView { tabs: TabsState { is_selected, ..self.tabs }, ..self }
    }

    pub open spec fn with_state(self, event_state: EventState) -> AppView {
        AppView { event_state, ..self }
    }

    /// Back to normal mode with the prompt hidden, on the same tab.
    pub open spec fn normal(self) -> AppView {
        AppView { event_state: normal_on(self.event_state.tab), ..self }
    }

    /// All text fields empty and no input cursor.
    pub open spec fn without_inputs(self) -> AppView {
        AppView {
            namespace_input: Seq::empty(),
            command_input: Seq::empty(),
            tag_input: Seq::empty(),
            cursor: None,
            ..self
        }
    }

    pub open spec fn failing(self, e: AppError) -> AppView {
        AppView { error: Some(e), ..self }
    }

    /// What has been typed into the field of the given kind.
    pub open spec fn input_of(self, field: EventType) -> Seq<char> {
        match field {
            EventType::Namespace => self.namespace_input,
            EventType::Command => self.command_input,
            _ => self.tag_input,
        }
    }

    /// The field of the given kind holding `s`.
    pub open spec fn with_input(self, field: EventType, s: Seq<char>) -> AppView {
        match field {
            EventType::Namespace => AppView { namespace_input: s, ..self },
            EventType::Command => AppView { command_input: s, ..self },
            _ => AppView { tag_input: s, ..self },
        }
    }
}

impl App {
    /// The tab row has the three tabs of `Tab` and agrees with the interaction
    /// state; selections designate items; commands and tags are index-aligned
    /// and move together.
    pub open spec fn wf(&self) -> bool {
        &&& self.tabs.titles.len() == 3
        &&& self.tabs.wf()
        &&& self.event_state.tab == tab_of(self.tabs.index)
        &&& self.event_state.wf()
        &&& self.namespaces.wf()
        &&& self.commands.wf()
        &&& self.tags.wf()
        &&& self.commands.items.len() == self.tags.items.len()
        &&& self.commands.selected == self.tags.selected
        &&& self.commands.is_selected == self.tags.is_selected
        &&& (self.cursor_position matches Some(c) ==> c.wf())
    }

    /// A session on the first tab, with the tab row focused and nothing selected.
    pub fn new(namespaces: Vec<String>, commands: Vec<String>, tags: Vec<String>) -> (r: App)
        requires
            commands.len() == tags.len(),
        ensures
            r.wf(),
            r.tabs.index == 0,
            r.tabs.is_selected,
            r.event_state == crate::event_state::initial_event_state(),
            r@.namespaces == ListView::fresh(namespaces@),
            r@.commands == ListView::fresh(commands@),
            r@.tags == ListView::fresh(tags@),
            r@.namespace_input.len() == 0,
            r@.command_input.len() == 0,
            r@.tag_input.len() == 0,
            r@.cursor is None,
            r@.error is None,
    {
        let mut tabs = TabsState::new(&NameConfig::new());
        tabs.is_selected = true;
        App {
            tabs,
            event_state: EventState::new(),
            namespaces: StatefulList::with_items(namespaces),
            commands: StatefulList::with_items(commands),
            tags: StatefulList::with_items(tags),
            namespace_input: Vec::new(),
            command_input: Vec::new(),
            tag_input: Vec::new(),
            cursor_position: None,
            error: None,
        }
    }

    /// Opens the input cursor at the top-left corner of a field `width`
    /// columns wide, for the text of the field being filled. An open cursor is
    /// kept as it is, and so is a missing one when the field's last column is
    /// not a machine integer.
    pub fn place_cursor(&mut self, x: usize, y: usize, width: usize)
        requires
            old(self).wf(),
        ensures
            final(self).wf(),
            old(self).cursor_position is Some || x + width > usize::MAX
                ==> final(self)@ == old(self)@,
            old(self).cursor_position is None && x + width <= usize::MAX ==> final(self)@ == (
            AppView {
                cursor: Some(
                    CursorView {
                        initial_x: x as int,
                        initial_y: y as int,
                        x: x as int,
                        y: y as int,
                        width: width as int,
                        len: old(self)@.input_of(old(self).event_state.event_type).len(),
                    },
                ),
                ..old(self)@
            }),
    {
        if self.cursor_position.is_none() && x <= usize::MAX - width {
            let input = match self.event_state.event_type {
                EventType::Namespace => self.namespace_input.clone(),
                EventType::Command => self.command_input.clone(),
                _ => self.tag_input.clone(),
            };
            self.cursor_position = Some(CursorPosition::new(x, y, width, input));
        }
    }
}

} // verus!
