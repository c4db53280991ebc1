use vstd::prelude::*;

verus! {

/// A key press, as the key handler sees it.
#[derive(Clone, Copy, Debug, PartialEq, Eq, Structural)]
pub enum Key {
    Char(char),
    Enter,
    Esc,
    Backspace,
    Left,
    Right,
    Up,
    Down,
    Other,
}

/// Storage work that the key handler needs done before it can go on.
/// Each request names the reply it expects.
#[derive(Clone, Debug)]
pub enum Request {
    /// Select the namespace at `index` once its commands and tags are known.
    /// Expects `Reply::Entries` for `namespace`.
    LoadCommands { index: usize, namespace: String },
    /// Is there a namespace of this exact name? Expects `Reply::Found`.
    FindNamespace(String),
    /// Store a new namespace. Expects `Reply::Namespaces` with all namespaces.
    CreateNamespace(String),
    /// Store a command and its tag under a namespace. Expects
    /// `Reply::Entries` for that namespace.
    CreateCommand { command: String, tag: String, namespace: String },
    /// Remove a command and its tag. Expects `Reply::Entries` for the namespace.
    DeleteCommand { command: String, namespace: String },
    /// Remove a namespace with its commands. Expects `Reply::Namespaces`.
    DeleteNamespace(String),
}

/// What storage answered to a request.
#[derive(Clone, Debug)]
pub enum Reply {
    Found(bool),
    Namespaces(Vec<String>),
    Entries(Vec<String>, Vec<String>),
}

/// What the caller has to do after a key press or a reply.
#[derive(Clone, Debug)]
pub enum Step {
    /// Nothing more: draw and wait for the next key.
    Idle,
    /// Leave the program.
    Quit,
    /// Leave the program and run this command, with its tag.
    Run(String, String),
    /// Do this storage work and hand the reply back.
    Store(Request),
}

/// A message for the user about the last action.
#[derive(Clone, Debug)]
pub enum AppError {
    /// A namespace of the typed name exists already.
    NamespaceExists,
    /// Enter was pressed on an empty field.
    EmptyInput,
    /// Storage failed with this message.
    Storage(String),
    /// Storage answered with something that does not fit the request.
    UnexpectedReply,
}

pub enum RequestView {
    LoadCommands { index: usize, namespace: Seq<char> },
    FindNamespace(Seq<char>),
    CreateNamespace(Seq<char>),
    CreateCommand { command: Seq<char>, tag: Seq<char>, namespace: Seq<char> },
    DeleteCommand { command: Seq<char>, namespace: Seq<char> },
    DeleteNamespace(Seq<char>),
}

pub enum StepView {
    Idle,
    Quit,
    Run(Seq<char>, Seq<char>),
    Store(RequestView),
}

impl View for Request {
    type V = RequestView;

    open spec fn view(&self) -> RequestView {
        match self {
            Request::LoadCommands { index, namespace } => RequestView::LoadCommands {
                index: *index,
                namespace: namespace@,
            },
            Request::FindNamespace(n) => RequestView::FindNamespace(n@),
            Request::CreateNamespace(n) => RequestView::CreateNamespace(n@),
            Request::CreateCommand { command, tag, namespace } => RequestView::CreateCommand {
                command: command@,
                tag: tag@,
                namespace: namespace@,
            },
            Request::DeleteCommand { command, namespace } => RequestView::DeleteCommand {
                command: command@,
                namespace: namespace@,
            },
            Request::DeleteNamespace(n) => RequestView::DeleteNamespace(n@),
        }
    }
}

impl View for Step {
    type V = StepView;

    open spec fn view(&self) -> StepView {
        match self {
            Step::Idle => StepView::Idle,
            Step::Quit => StepView::Quit,
            Step::Run(c, t) => StepView::Run(c@, t@),
            Step::Store(r) => StepView::Store(r@),
        }
    }
}

/// Relies on `FromIterator<char>` for `String`: the string holds exactly the
/// given characters, in order.
#[verifier::external_body]
pub(crate) fn string_of(chars: &Vec<char>) -> (r: String)
    ensures
        r@ == chars@,
{
    chars.iter().collect()
}

} // verus!
