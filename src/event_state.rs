use vstd::prelude::*;

verus! {

/// What the keys currently do: navigate, fill the add wizard, or confirm a deletion.
#[derive(Clone, Copy, Debug, PartialEq, Eq, Structural)]
pub enum Mode {
    Add,
    Delete,
    Normal,
}

/// Which kind of entry the add wizard creates.
#[derive(Clone, Copy, Debug, PartialEq, Eq, Structural)]
pub enum SubMode {
    Command,
    Namespace,
    Idle,
    Quit,
}

/// Which text field the add wizard is filling.
#[derive(Clone, Copy, Debug, PartialEq, Eq, Structural)]
pub enum EventType {
    Command,
    Namespace,
    Idle,
    Tag,
}

/// The two-step confirmation prompt: hidden, armed (displayed), or committed.
#[derive(Clone, Copy, Debug, PartialEq, Eq, Structural)]
pub enum Confirm {
    Confirmed,
    Display,
    Hide,
}

#[derive(Clone, Copy, Debug, PartialEq, Eq, Structural)]
pub enum Tab {
    Tab1,
    Tab2,
    Tab3,
}

/// The interaction state: active tab, mode, add field and confirmation prompt.
#[derive(Clone, Copy, Debug, PartialEq, Eq, Structural)]
pub struct EventState {
    pub confirm: Confirm,
    pub event_type: EventType,
    pub mode: Mode,
    pub sub_mode: SubMode,
    pub tab: Tab,
}

/// The state a session starts in.
pub open spec fn initial_event_state() -> EventState {
    EventState {
        confirm: Confirm::Hide,
        event_type: EventType::Idle,
        mode: Mode::Normal,
        sub_mode: SubMode::Idle,
        tab: Tab::Tab1,
    }
}

/// Normal mode with the prompt hidden, on the given tab.
pub open spec fn normal_on(tab: Tab) -> EventState {
    EventState { tab, ..initial_event_state() }
}

impl EventState {
    /// A text field is filled only in add mode, and in add mode the prompt
    /// shows only once the tag, the wizard's last field, is typed.
    pub open spec fn wf(&self) -> bool {
        &&& self.event_type != EventType::Idle ==> self.mode == Mode::Add
        &&& self.mode == Mode::Add && self.confirm == Confirm::Display ==> self.event_type == EventType::Tag
    }

    pub fn new() -> (r: Self)
        ensures
            r == initial_event_state(),
            r.wf(),
    {
        EventState {
            confirm: Confirm::Hide,
            event_type: EventType::Idle,
            mode: Mode::Normal,
            sub_mode: SubMode::Idle,
            tab: Tab::Tab1,
        }
    }

    pub fn get_mode(&self) -> (r: &Mode)
        ensures
            *r == self.mode,
    {
        &self.mode
    }

    pub fn get_sub_mode(&self) -> (r: &SubMode)
        ensures
            *r == self.sub_mode,
    {
        &self.sub_mode
    }

    pub fn get_event_type(&self) -> (r: &EventType)
        ensures
            *r == self.event_type,
    {
        &self.event_type
    }

    pub fn get_confirm(&self) -> (r: &Confirm)
        ensures
            *r == self.confirm,
    {
        &self.confirm
    }

    pub fn get_tab(&self) -> (r: &Tab)
        ensures
            *r == self.tab,
    {
        &self.tab
    }

    pub fn set_mode(&mut self, mode: Mode)
        ensures
            *final(self) == (EventState { mode, ..*old(self) }),
    {
        self.mode = mode;
    }

    pub fn set_sub_mode(&mut self, sub_mode: SubMode)
        ensures
            *final(self) == (EventState { sub_mode, ..*old(self) }),
    {
        self.sub_mode = sub_mode;
    }

    pub fn set_event_type(&mut self, event_type: EventType)
        ensures
            *final(self) == (EventState { event_type, ..*old(self) }),
    {
        self.event_type = event_type;
    }

    pub fn set_confirm(&mut self, confirm: Confirm)
        ensures
            *final(self) == (EventState { confirm, ..*old(self) }),
    {
        self.confirm = confirm;
    }

    pub fn set_tab(&mut self, tab: Tab)
        ensures
            *final(self) == (EventState { tab, ..*old(self) }),
    {
        self.tab = tab;
    }
}

impl Default for EventState {
    fn default() -> (r: Self)
        ensures
            r == initial_event_state(),
    {
        EventState::new()
    }
}

} // verus!
