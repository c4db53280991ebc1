use vstd::prelude::*;

verus! {

/// Titles and labels shown by the interface.
pub struct NameConfig {
    pub app_title: String,
    pub namespace: String,
    pub command: String,
    pub tabs_title: Vec<String>,
    pub namespaces_title: String,
    pub commands_title: String,
    pub tags_title: String,
    pub highlight_symbol: String,
    pub confirm_title: String,
    pub add_namespace_title: String,
    pub add_command_title: String,
}

impl NameConfig {
    pub fn new() -> (r: NameConfig)
        ensures
            r.app_title@ == "Command Manager"@,
            r.namespace@ == "namespace"@,
            r.command@ == "command"@,
            r.tabs_title@.len() == 3,
            r.tabs_title@[0]@ == "Tab 1"@,
            r.tabs_title@[1]@ == "Tab 2"@,
            r.tabs_title@[2]@ == "Tab 3"@,
            r.namespaces_title@ == "Namespaces"@,
            r.commands_title@ == "Commands"@,
            r.tags_title@ == "Tags"@,
            r.highlight_symbol@ == "⟩"@,
            r.confirm_title@ == "Confirm"@,
            r.add_namespace_title@ == "Type the namespace name"@,
            r.add_command_title@ == "Type the command script"@,
    {
        NameConfig {
            app_title: "Command Manager".to_owned(),
            namespace: "namespace".to_owned(),
            command: "command".to_owned(),
            tabs_title: vec!["Tab 1".to_owned(), "Tab 2".to_owned(), "Tab 3".to_owned()],
            namespaces_title: "Namespaces".to_owned(),
            commands_title: "Commands".to_owned(),
            tags_title: "Tags".to_owned(),
            highlight_symbol: "⟩".to_owned(),
            confirm_title: "Confirm".to_owned(),
            add_namespace_title: "Type the namespace name".to_owned(),
            add_command_title: "Type the command script".to_owned(),
        }
    }
}

/// Texts of the command confirmation prompt.
pub struct TextConfig {
    pub confirm_command: String,
    pub confirm_command_answer: String,
}

impl TextConfig {
    pub fn new() -> (r: TextConfig)
        ensures
            r.confirm_command@ == "Execute the selected command ? (press Esc to cancel)"@,
            r.confirm_command_answer@ == "Press Enter"@,
    {
        TextConfig {
            confirm_command: "Execute the selected command ? (press Esc to cancel)".to_owned(),
            confirm_command_answer: "Press Enter".to_owned(),
        }
    }
}

/// The texts of a confirmation popup: the question and how to answer it.
pub struct PopupContent<'a> {
    pub message: &'a str,
    pub confirm: &'a str,
}

impl<'a> PopupContent<'a> {
    pub fn new(message: &'a str, confirm: &'a str) -> (r: Self)
        ensures
            r.message == message,
            r.confirm == confirm,
    {
        PopupContent { message, confirm }
    }
}

} // verus!
