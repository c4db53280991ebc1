use vstd::prelude::*;

verus! {

/// The kind of entry being added.
#[derive(Clone, Copy, Debug, PartialEq, Eq, Structural)]
pub enum AddType {
    Command,
    Namespace,
}

/// The field that typed text goes to.
#[derive(Clone, Copy, Debug, PartialEq, Eq, Structural)]
pub enum InputMode {
    Command,
    Namespace,
    Tag,
}

/// An add form over borrowed items: what is added, the text typed so far,
/// the command text kept while its tag is typed, and the last error.
pub struct Add<'a, T: 'a> {
    pub add_type: Option<AddType>,
    pub items: Vec<&'a T>,
    pub input_mode: Option<InputMode>,
    pub input: String,
    pub input_command: Option<String>,
    pub error_message: Option<String>,
}

impl<'a, T> Add<'a, T> {
    /// An empty form over the given items.
    pub fn new(items: Vec<&'a T>) -> (r: Add<'a, T>)
        ensures
            r.add_type is None,
            r.items@ == items@,
            r.input_mode is None,
            r.input@.len() == 0,
            r.input_command is None,
            r.error_message is None,
    {
        Add {
            add_type: None,
            items,
            input_mode: None,
            input: String::new(),
            input_command: None,
            error_message: None,
        }
    }
}

} // verus!
