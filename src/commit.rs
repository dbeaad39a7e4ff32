use vstd::prelude::*;
use crate::action::{all_completed, no_args, push_word, words, Action, ActionView, Event, EventView};
use crate::identity::{resolve_actor, unknown_actor};
use crate::init::add_all;
use crate::timestamp::{format_timestamp, timestamp_text};

verus! {

/// Where a commit of pending changes stands: the step whose action is under way.
#[derive(Clone, Copy, Debug, PartialEq, Eq, Structural)]
pub enum CommitStep {
    StageAll,
    Status,
    Record,
    WriteLog,
    Done,
}

/// A commit of all pending changes in progress, by `actor` at `timestamp`.
pub struct CommitRun {
    /// With logging, each commit leaves a record under the log directory.
    pub logging: bool,
    pub actor: String,
    pub timestamp: String,
    pub step: CommitStep,
}

pub struct CommitRunView {
    pub logging: bool,
    pub actor: Seq<char>,
    pub timestamp: Seq<char>,
    pub step: CommitStep,
}

impl View for CommitRun {
    type V = CommitRunView;

    open spec fn view(&self) -> CommitRunView {
        CommitRunView {
            logging: self.logging,
            actor: self.actor@,
            timestamp: self.timestamp@,
            step: self.step,
        }
    }
}

/// The commit message: the actor, a space, the timestamp.
pub open spec fn commit_message(actor: Seq<char>, timestamp: Seq<char>) -> Seq<char> {
    actor + seq![' '] + timestamp
}

pub open spec fn status_args() -> Seq<Seq<char>> {
    seq!["status"@, "--porcelain"@]
}

pub open spec fn commit_args(message: Seq<char>) -> Seq<Seq<char>> {
    seq!["commit"@, "-m"@, message]
}

/// The file that records a commit made at `timestamp`.
pub open spec fn log_path(timestamp: Seq<char>) -> Seq<char> {
    "log/"@ + timestamp + ".log"@
}

/// The record written for a commit.
pub open spec fn log_line(actor: Seq<char>, timestamp: Seq<char>) -> Seq<char> {
    "Commit by "@ + actor + " at "@ + timestamp
}

pub open spec fn committed_text(actor: Seq<char>) -> Seq<char> {
    "Changes committed successfully by "@ + actor
}

pub open spec fn committed_unlogged_text(actor: Seq<char>) -> Seq<char> {
    "Changes committed successfully by "@ + actor + ", but failed to write log"@
}

pub open spec fn no_changes_text() -> Seq<char> {
    "No changes detected in the repository"@
}

/// The message with which a failed step ends the run.
pub open spec fn commit_failure_text(run: CommitRunView) -> Seq<char> {
    match run.step {
        CommitStep::StageAll => "Failed to stage changes"@,
        CommitStep::Status => "Failed to check repository status"@,
        CommitStep::Record => "Failed to commit changes"@,
        _ => committed_unlogged_text(run.actor),
    }
}

/// The step after the one under way succeeded, and the action it starts.
/// `output_empty` is what the status query reported.
pub open spec fn commit_next(run: CommitRunView, output_empty: bool) -> (CommitStep, ActionView) {
    match run.step {
        CommitStep::StageAll => (CommitStep::Status, ActionView::Tool(status_args())),
        CommitStep::Status => if output_empty {
            (CommitStep::Done, ActionView::Finish(no_changes_text()))
        } else {
            (
                CommitStep::Record,
                ActionView::Tool(commit_args(commit_message(run.actor, run.timestamp))),
            )
        },
        CommitStep::Record => if run.logging {
            (
                CommitStep::WriteLog,
                ActionView::WriteFile {
                    path: log_path(run.timestamp),
                    contents: log_line(run.actor, run.timestamp),
                },
            )
        } else {
            (CommitStep::Done, ActionView::Finish(committed_text(run.actor)))
        },
        _ => (CommitStep::Done, ActionView::Finish(committed_text(run.actor))),
    }
}

/// One move of a commit: from the step under way and what became of its action,
/// to the next step and its action. Only a failure to carry out the action fails
/// the step; a failed log record still reports the commit.
pub open spec fn commit_transition(run: CommitRunView, event: EventView) -> (
    CommitStep,
    ActionView,
) {
    match event {
        EventView::Failed { .. } => (CommitStep::Done, ActionView::Finish(commit_failure_text(run))),
        EventView::Completed { output_empty, .. } => commit_next(run, output_empty),
    }
}

/// The actions that `run` takes when its actions end as `events` say, one event
/// for each action, up to the end of the run.
pub open spec fn commit_replay(run: CommitRunView, events: Seq<EventView>) -> Seq<ActionView>
    decreases events.len(),
{
    if run.step == CommitStep::Done || events.len() == 0 {
        Seq::empty()
    } else {
        let (next, action) = commit_transition(run, events[0]);
        seq![action] + commit_replay(CommitRunView { step: next, ..run }, events.drop_first())
    }
}

/// A commit run on a working tree with nothing pending (the status query prints
/// nothing) reports that no change was found and makes no commit: its last action
/// is the status query.
pub proof fn lemma_nothing_to_commit(run: CommitRunView, events: Seq<EventView>)
    requires
        run.step == CommitStep::StageAll,
        events.len() >= 2,
        events[0] is Completed,
        events[1] matches EventView::Completed { output_empty: true, .. },
    ensures
        commit_replay(run, events) == seq![
            ActionView::Tool(status_args()),
            ActionView::Finish(no_changes_text()),
        ],
{
    let e1 = events.drop_first();
    let e2 = e1.drop_first();
    assert(e1[0] == events[1]);
    let status = CommitRunView { step: CommitStep::Status, ..run };
    let done = CommitRunView { step: CommitStep::Done, ..run };
    assert(commit_replay(done, e2) == Seq::<ActionView>::empty());
    assert(commit_replay(status, e1) == seq![ActionView::Finish(no_changes_text())] + Seq::<
        ActionView,
    >::empty());
    assert(commit_replay(run, events) =~= seq![
        ActionView::Tool(status_args()),
        ActionView::Finish(no_changes_text()),
    ]);
}

/// What a commit does after the status query found pending changes, when every
/// action is carried out: one commit with the message `<actor> <timestamp>`, with
/// logging a record `Commit by <actor> at <timestamp>` in `log/<timestamp>.log`,
/// and the report of success.
pub open spec fn commit_completed_actions(run: CommitRunView) -> Seq<ActionView> {
    seq![ActionView::Tool(commit_args(commit_message(run.actor, run.timestamp)))] + (
    if run.logging {
        seq![
            ActionView::WriteFile {
                path: log_path(run.timestamp),
                contents: log_line(run.actor, run.timestamp),
            },
        ]
    } else {
        Seq::empty()
    }) + seq![ActionView::Finish(committed_text(run.actor))]
}

/// A commit run on a working tree with pending changes, whose actions are all
/// carried out, makes exactly one commit with the message `<actor> <timestamp>`,
/// writes the log record when logging, and reports a text that begins with
/// `Changes committed successfully by `.
pub proof fn lemma_changes_committed(run: CommitRunView, events: Seq<EventView>)
    requires
        run.step == CommitStep::StageAll,
        all_completed(events),
        events.len() >= 4,
        events[1] matches EventView::Completed { output_empty: false, .. },
    ensures
        commit_replay(run, events) == seq![ActionView::Tool(status_args())]
            + commit_completed_actions(run),
        committed_text(run.actor).take(34) == "Changes committed successfully by "@,
{
    let e1 = events.drop_first();
    let e2 = e1.drop_first();
    let e3 = e2.drop_first();
    let e4 = e3.drop_first();
    assert(events[0] is Completed);
    assert(e1[0] == events[1]);
    assert(e2[0] == events[2]);
    assert(e3[0] == events[3]);
    assert(events[2] is Completed);
    assert(events[3] is Completed);
    let status = CommitRunView { step: CommitStep::Status, ..run };
    let record = CommitRunView { step: CommitStep::Record, ..run };
    let write_log = CommitRunView { step: CommitStep::WriteLog, ..run };
    let done = CommitRunView { step: CommitStep::Done, ..run };
    let finish = seq![ActionView::Finish(committed_text(run.actor))];
    if run.logging {
        assert(commit_replay(done, e4) == Seq::<ActionView>::empty());
        assert(commit_replay(write_log, e3) == finish + Seq::<ActionView>::empty());
        assert(commit_replay(record, e2) == seq![
            ActionView::WriteFile {
                path: log_path(run.timestamp),
                contents: log_line(run.actor, run.timestamp),
            },
        ] + commit_replay(write_log, e3));
    } else {
        assert(commit_replay(done, e3) == Seq::<ActionView>::empty());
        assert(commit_replay(record, e2) == finish + Seq::<ActionView>::empty());
    }
    assert(commit_replay(status, e1) == seq![
        ActionView::Tool(commit_args(commit_message(run.actor, run.timestamp))),
    ] + commit_replay(record, e2));
    assert(commit_replay(run, events) =~= seq![ActionView::Tool(status_args())]
        + commit_completed_actions(run));
    reveal_strlit("Changes committed successfully by ");
    assert(committed_text(run.actor).take(34) =~= "Changes committed successfully by "@);
}

/// Appends `b` to a copy of `a`.
fn joined(a: &str, b: &str) -> (r: String)
    ensures
        r@ == a@ + b@,
{
    let mut r = String::from_str(a);
    r.append(b);
    r
}

impl CommitRun {
    /// Starts a commit by `actor` at `timestamp`: its first action stages every change.
    pub fn start(logging: bool, actor: String, timestamp: String) -> (r: (CommitRun, Action))
        ensures
            r.0@ == (CommitRunView {
                logging,
                actor: actor@,
                timestamp: timestamp@,
                step: CommitStep::StageAll,
            }),
            r.1@ == ActionView::Tool(crate::init::add_all_args()),
    {
        (CommitRun { logging, actor, timestamp, step: CommitStep::StageAll }, Action::Tool(add_all()))
    }

    /// Starts a commit at `secs` seconds after the epoch, by the actor that the
    /// environment names (`actor_value`), or by `unknown` where it names none.
    pub fn begin(logging: bool, actor_value: Option<String>, secs: u64) -> (r: (CommitRun, Action))
        ensures
            r.0@ == (CommitRunView {
                logging,
                actor: match actor_value {
                    Some(v) => v@,
                    None => unknown_actor(),
                },
                timestamp: timestamp_text(secs as nat),
                step: CommitStep::StageAll,
            }),
            r.1@ == ActionView::Tool(crate::init::add_all_args()),
    {
        CommitRun::start(logging, resolve_actor(actor_value), format_timestamp(secs))
    }

    /// The commit message of this run.
    pub fn message(&self) -> (r: String)
        ensures
            r@ == commit_message(self.actor@, self.timestamp@),
    {
        proof { reveal_strlit(" "); }
        let mut r = joined(self.actor.as_str(), " ");
        r.append(self.timestamp.as_str());
        r
    }

    /// Takes what became of the last action and gives the next one.
    pub fn advance(&mut self, event: Event) -> (r: Action)
        requires
            old(self).step != CommitStep::Done,
        ensures
            final(self)@ == (CommitRunView { step: final(self).step, ..old(self)@ }),
            (final(self).step, r@) == commit_transition(old(self)@, event@),
    {
        let ghost before = self@;
        let ghost seen = event@;
        let r = match event {
            Event::Failed { .. } => {
                let text = match self.step {
                    CommitStep::StageAll => String::from_str("Failed to stage changes"),
                    CommitStep::Status => String::from_str("Failed to check repository status"),
                    CommitStep::Record => String::from_str("Failed to commit changes"),
                    _ => {
                        let mut t = joined("Changes committed successfully by ", self.actor.as_str());
                        t.append(", but failed to write log");
                        t
                    },
                };
                self.step = CommitStep::Done;
                Action::Finish(text)
            },
            Event::Completed { output_empty, .. } => {
                match self.step {
                    CommitStep::StageAll => {
                        self.step = CommitStep::Status;
                        let mut v = no_args();
                        push_word(&mut v, "status");
                        push_word(&mut v, "--porcelain");
                        assert(words(v@) == status_args());
                        Action::Tool(v)
                    },
                    CommitStep::Status => {
                        if output_empty {
                            self.step = CommitStep::Done;
                            Action::Finish(String::from_str("No changes detected in the repository"))
                        } else {
                            let message = self.message();
                            self.step = CommitStep::Record;
                            let mut v = no_args();
                            push_word(&mut v, "commit");
                            push_word(&mut v, "-m");
                            push_word(&mut v, message.as_str());
                            assert(words(v@) == commit_args(message@));
                            Action::Tool(v)
                        }
                    },
                    CommitStep::Record => {
                        if self.logging {
                            let mut path = joined("log/", self.timestamp.as_str());
                            path.append(".log");
                            let mut line = joined("Commit by ", self.actor.as_str());
                            line.append(" at ");
                            line.append(self.timestamp.as_str());
                            self.step = CommitStep::WriteLog;
                            Action::WriteFile { path, contents: line }
                        } else {
                            self.step = CommitStep::Done;
                            Action::Finish(joined("Changes committed successfully by ", self.actor.as_str()))
                        }
                    },
                    _ => {
                        self.step = CommitStep::Done;
                        Action::Finish(joined("Changes committed successfully by ", self.actor.as_str()))
                    },
                }
            },
        };
        assert((self.step, r@) =~= commit_transition(before, seen));
        r
    }
}

} // verus!
