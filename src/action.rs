use vstd::prelude::*;

verus! {

/// The program that every tool action runs.
pub const TOOL: &'static str = "git";

/// The path whose presence marks a repository in the working directory.
pub const METADATA_PATH: &'static str = ".git";

/// What the caller is to do next on behalf of an operation.
#[derive(Clone, Debug, PartialEq, Eq)]
pub enum Action {
    /// Run the version-control tool with these arguments and wait until it exits.
    Tool(Vec<String>),
    /// Create a directory (and its parents).
    MakeDir(String),
    /// Write a file whole, replacing what it held.
    WriteFile { path: String, contents: String },
    /// The operation is over: show this text to the user.
    Finish(String),
}

pub enum ActionView {
    Tool(Seq<Seq<char>>),
    MakeDir(Seq<char>),
    WriteFile { path: Seq<char>, contents: Seq<char> },
    Finish(Seq<char>),
}

/// Whether every one of `events` reports an action carried out.
pub open spec fn all_completed(events: Seq<EventView>) -> bool {
    forall|i: int| 0 <= i < events.len() ==> #[trigger] events[i] is Completed
}

/// The text of each word of an argument list.
pub open spec fn words(v: Seq<String>) -> Seq<Seq<char>> {
    v.map_values(|s: String| s@)
}

impl View for Action {
    type V = ActionView;

    open spec fn view(&self) -> ActionView {
        match self {
            Action::Tool(args) => ActionView::Tool(words(args@)),
            Action::MakeDir(path) => ActionView::MakeDir(path@),
            Action::WriteFile { path, contents } => ActionView::WriteFile {
                path: path@,
                contents: contents@,
            },
            Action::Finish(text) => ActionView::Finish(text@),
        }
    }
}

/// What became of the last action.
#[derive(Clone, Debug, PartialEq, Eq)]
pub enum Event {
    /// The action was carried out. For a tool run the tool started and exited:
    /// `exit_ok` tells whether it reported success, `output_empty` whether it wrote
    /// nothing on standard output. A file or directory action that succeeded reports
    /// both as true.
    Completed { exit_ok: bool, output_empty: bool },
    /// The action could not be carried out (the tool could not be started, the file
    /// could not be written); `reason` says why.
    Failed { reason: String },
}

pub enum EventView {
    Completed { exit_ok: bool, output_empty: bool },
    Failed { reason: Seq<char> },
}

impl View for Event {
    type V = EventView;

    open spec fn view(&self) -> EventView {
        match self {
            Event::Completed { exit_ok, output_empty } => EventView::Completed {
                exit_ok: *exit_ok,
                output_empty: *output_empty,
            },
            Event::Failed { reason } => EventView::Failed { reason: reason@ },
        }
    }
}

/// An empty argument list.
pub fn no_args() -> (r: Vec<String>)
    ensures
        words(r@) == Seq::<Seq<char>>::empty(),
{
    let v: Vec<String> = Vec::new();
    assert(words(v@) =~= Seq::<Seq<char>>::empty());
    v
}

/// Appends one argument to an argument list.
pub fn push_word(v: &mut Vec<String>, w: &str)
    ensures
        words(final(v)@) == words(old(v)@).push(w@),
{
    v.push(String::from_str(w));
    assert(words(final(v)@) =~= words(old(v)@).push(w@));
}

/// Whether the version-control tool is installed, judged from its version query:
/// it must have started and exited with success.
pub fn tool_installed(event: &Event) -> (r: bool)
    ensures
        r == (event@ matches EventView::Completed { exit_ok: true, .. }),
        event@ is Failed ==> !r,
{
    match event {
        Event::Completed { exit_ok, .. } => *exit_ok,
        Event::Failed { .. } => false,
    }
}

/// The arguments of the tool's version query.
pub open spec fn version_args() -> Seq<Seq<char>> {
    seq!["--version"@]
}

/// The arguments that ask the tool for its version, to learn whether it is installed.
pub fn version_query() -> (r: Vec<String>)
    ensures
        words(r@) == version_args(),
{
    let mut v = no_args();
    push_word(&mut v, "--version");
    v
}

} // verus!
