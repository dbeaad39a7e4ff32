use vstd::prelude::*;
use crate::action::{all_completed, no_args, push_word, words, Action, ActionView, Event, EventView};

verus! {

/// Where a repository initialization stands: the step whose action is under way.
#[derive(Clone, Copy, Debug, PartialEq, Eq, Structural)]
pub enum InitStep {
    Create,
    WriteIgnore,
    MakeLogDir,
    StageAll,
    Commit,
    Done,
}

/// A repository initialization in progress. Steps run in order; the first that
/// fails ends the run with its own message.
pub struct InitRun {
    /// With logging, a log directory is made and left out of version control.
    pub logging: bool,
    pub step: InitStep,
}

pub open spec fn ignore_text(logging: bool) -> Seq<char> {
    if logging {
        ".DS_Store\nlog/\n"@
    } else {
        ".DS_Store\n"@
    }
}

pub open spec fn init_args() -> Seq<Seq<char>> {
    seq!["init"@]
}

pub open spec fn add_all_args() -> Seq<Seq<char>> {
    seq!["add"@, "."@]
}

pub open spec fn initial_commit_args() -> Seq<Seq<char>> {
    seq!["commit"@, "--allow-empty"@, "-m"@, "Initial commit"@]
}

/// The message with which a failed step ends the run.
pub open spec fn init_failure_text(step: InitStep) -> Seq<char> {
    match step {
        InitStep::Create => "Failed to initialize repository"@,
        InitStep::WriteIgnore => "Failed to create .gitignore file"@,
        InitStep::MakeLogDir => "Failed to create log directory"@,
        InitStep::StageAll => "Failed to stage files"@,
        _ => "Failed to create initial commit"@,
    }
}

pub open spec fn init_success_text() -> Seq<char> {
    "Repository successfully initialized"@
}

/// The step after `step` succeeded, and the action it starts.
pub open spec fn init_next(logging: bool, step: InitStep) -> (InitStep, ActionView) {
    match step {
        InitStep::Create => (
            InitStep::WriteIgnore,
            ActionView::WriteFile { path: ".gitignore"@, contents: ignore_text(logging) },
        ),
        InitStep::WriteIgnore => if logging {
            (InitStep::MakeLogDir, ActionView::MakeDir("log"@))
        } else {
            (InitStep::StageAll, ActionView::Tool(add_all_args()))
        },
        InitStep::MakeLogDir => (InitStep::StageAll, ActionView::Tool(add_all_args())),
        InitStep::StageAll => (InitStep::Commit, ActionView::Tool(initial_commit_args())),
        _ => (InitStep::Done, ActionView::Finish(init_success_text())),
    }
}

/// One move of an initialization: from the step under way and what became of its
/// action, to the next step and its action. Only a failure to carry out the action
/// fails the step.
pub open spec fn init_transition(logging: bool, step: InitStep, event: EventView) -> (
    InitStep,
    ActionView,
) {
    match event {
        EventView::Failed { .. } => (InitStep::Done, ActionView::Finish(init_failure_text(step))),
        EventView::Completed { .. } => init_next(logging, step),
    }
}

/// The actions that a run at `step` takes when its actions end as `events` say,
/// one event for each action, up to the end of the run.
pub open spec fn init_replay(logging: bool, step: InitStep, events: Seq<EventView>) -> Seq<
    ActionView,
>
    decreases events.len(),
{
    if step == InitStep::Done || events.len() == 0 {
        Seq::empty()
    } else {
        let (next, action) = init_transition(logging, step, events[0]);
        seq![action] + init_replay(logging, next, events.drop_first())
    }
}

/// What an initialization does after creating the repository, when every action
/// is carried out.
pub open spec fn init_completed_actions(logging: bool) -> Seq<ActionView> {
    seq![ActionView::WriteFile { path: ".gitignore"@, contents: ignore_text(logging) }] + (
    if logging {
        seq![ActionView::MakeDir("log"@)]
    } else {
        Seq::empty()
    }) + seq![
        ActionView::Tool(add_all_args()),
        ActionView::Tool(initial_commit_args()),
        ActionView::Finish(init_success_text()),
    ]
}

/// An initialization whose actions are all carried out writes the ignore file,
/// stages every file, makes the initial commit (allowed to be empty) and reports
/// success. A run depends on nothing that an earlier run left behind, so
/// initializing a directory a second time makes a second initial commit.
pub proof fn lemma_init_always_commits(logging: bool, events: Seq<EventView>)
    requires
        all_completed(events),
        events.len() >= 5,
    ensures
        init_replay(logging, InitStep::Create, events) == init_completed_actions(logging),
{
    let e1 = events.drop_first();
    let e2 = e1.drop_first();
    let e3 = e2.drop_first();
    let e4 = e3.drop_first();
    let e5 = e4.drop_first();
    assert(events[0] is Completed);
    assert(e1[0] == events[1]);
    assert(e2[0] == events[2]);
    assert(e3[0] == events[3]);
    assert(e4[0] == events[4]);
    assert(events[1] is Completed);
    assert(events[2] is Completed);
    assert(events[3] is Completed);
    assert(events[4] is Completed);
    let done = Seq::<ActionView>::empty();
    if logging {
        let r4 = init_replay(logging, InitStep::Commit, e4);
        let r3 = init_replay(logging, InitStep::StageAll, e3);
        let r2 = init_replay(logging, InitStep::MakeLogDir, e2);
        let r1 = init_replay(logging, InitStep::WriteIgnore, e1);
        assert(init_replay(logging, InitStep::Done, e5) == done);
        assert(r4 == seq![ActionView::Finish(init_success_text())] + done);
        assert(r3 == seq![ActionView::Tool(initial_commit_args())] + r4);
        assert(r2 == seq![ActionView::Tool(add_all_args())] + r3);
        assert(r1 == seq![ActionView::MakeDir("log"@)] + r2);
    } else {
        let r3 = init_replay(logging, InitStep::Commit, e3);
        let r2 = init_replay(logging, InitStep::StageAll, e2);
        let r1 = init_replay(logging, InitStep::WriteIgnore, e1);
        assert(init_replay(logging, InitStep::Done, e4) == done);
        assert(r3 == seq![ActionView::Finish(init_success_text())] + done);
        assert(r2 == seq![ActionView::Tool(initial_commit_args())] + r3);
        assert(r1 == seq![ActionView::Tool(add_all_args())] + r2);
    }
    assert(init_replay(logging, InitStep::Create, events) =~= init_completed_actions(logging));
}

/// The arguments that stage every file of the working directory.
pub fn add_all() -> (r: Vec<String>)
    ensures
        words(r@) == add_all_args(),
{
    let mut v = no_args();
    push_word(&mut v, "add");
    push_word(&mut v, ".");
    v
}

fn ignore_contents(logging: bool) -> (r: String)
    ensures
        r@ == ignore_text(logging),
{
    if logging {
        String::from_str(".DS_Store\nlog/\n")
    } else {
        String::from_str(".DS_Store\n")
    }
}

fn failure_message(step: InitStep) -> (r: String)
    ensures
        r@ == init_failure_text(step),
{
    match step {
        InitStep::Create => String::from_str("Failed to initialize repository"),
        InitStep::WriteIgnore => String::from_str("Failed to create .gitignore file"),
        InitStep::MakeLogDir => String::from_str("Failed to create log directory"),
        InitStep::StageAll => String::from_str("Failed to stage files"),
        _ => String::from_str("Failed to create initial commit"),
    }
}

impl InitRun {
    /// Starts an initialization: its first action creates the repository.
    pub fn start(logging: bool) -> (r: (InitRun, Action))
        ensures
            r.0.logging == logging,
            r.0.step == InitStep::Create,
            r.1@ == ActionView::Tool(init_args()),
    {
        let mut v = no_args();
        push_word(&mut v, "init");
        (InitRun { logging, step: InitStep::Create }, Action::Tool(v))
    }

    /// Takes what became of the last action and gives the next one.
    pub fn advance(&mut self, event: Event) -> (r: Action)
        requires
            old(self).step != InitStep::Done,
        ensures
            final(self).logging == old(self).logging,
            (final(self).step, r@) == init_transition(old(self).logging, old(self).step, event@),
    {
        let ghost before = *self;
        let ghost seen = event@;
        let r = match event {
            Event::Failed { .. } => {
                let text = failure_message(self.step);
                self.step = InitStep::Done;
                Action::Finish(text)
            },
            Event::Completed { .. } => {
                match self.step {
                    InitStep::Create => {
                        self.step = InitStep::WriteIgnore;
                        Action::WriteFile {
                            path: String::from_str(".gitignore"),
                            contents: ignore_contents(self.logging),
                        }
                    },
                    InitStep::WriteIgnore => {
                        if self.logging {
                            self.step = InitStep::MakeLogDir;
                            Action::MakeDir(String::from_str("log"))
                        } else {
                            self.step = InitStep::StageAll;
                            Action::Tool(add_all())
                        }
                    },
                    InitStep::MakeLogDir => {
                        self.step = InitStep::StageAll;
                        Action::Tool(add_all())
                    },
                    InitStep::StageAll => {
                        self.step = InitStep::Commit;
                        let mut v = no_args();
                        push_word(&mut v, "commit");
                        push_word(&mut v, "--allow-empty");
                        push_word(&mut v, "-m");
                        push_word(&mut v, "Initial commit");
                        assert(words(v@) == initial_commit_args());
                        Action::Tool(v)
                    },
                    _ => {
                        self.step = InitStep::Done;
                        Action::Finish(String::from_str("Repository successfully initialized"))
                    },
                }
            },
        };
        assert((self.step, r@) =~= init_transition(before.logging, before.step, seen));
        r
    }
}

} // verus!
