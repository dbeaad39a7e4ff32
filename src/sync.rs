use vstd::prelude::*;
use crate::action::{no_args, push_word, words, Action, ActionView, Event, EventView};

verus! {

/// Where a synchronization with the remote stands: the step whose action is under way.
#[derive(Clone, Copy, Debug, PartialEq, Eq, Structural)]
pub enum SyncStep {
    Remotes,
    Pull,
    Push,
    Done,
}

/// A synchronization in progress: check that a remote is configured, pull with
/// rebase, then push.
pub struct SyncRun {
    pub step: SyncStep,
}

pub open spec fn remote_list_args() -> Seq<Seq<char>> {
    seq!["remote"@, "-v"@]
}

pub open spec fn pull_args() -> Seq<Seq<char>> {
    seq!["pull"@, "-r"@]
}

pub open spec fn push_args() -> Seq<Seq<char>> {
    seq!["push"@]
}

/// The hint given when no remote is configured.
pub open spec fn no_remote_text() -> Seq<char> {
    "No remote repository configured. Please set up a remote repository with 'git remote add origin <repository-url>'"@
}

pub open spec fn synced_text() -> Seq<char> {
    "Repository successfully synced"@
}

/// The message with which a failed step ends the run; pull and push failures carry
/// the reason.
pub open spec fn sync_failure_text(step: SyncStep, reason: Seq<char>) -> Seq<char> {
    match step {
        SyncStep::Remotes => "Failed to check remote repository status"@,
        SyncStep::Pull => "Failed to pull changes: "@ + reason,
        _ => "Failed to push changes: "@ + reason,
    }
}

/// One move of a synchronization: from the step under way and what became of its
/// action, to the next step and its action.
pub open spec fn sync_transition(step: SyncStep, event: EventView) -> (SyncStep, ActionView) {
    match event {
        EventView::Failed { reason } => (
            SyncStep::Done,
            ActionView::Finish(sync_failure_text(step, reason)),
        ),
        EventView::Completed { output_empty, .. } => match step {
            SyncStep::Remotes => if output_empty {
                (SyncStep::Done, ActionView::Finish(no_remote_text()))
            } else {
                (SyncStep::Pull, ActionView::Tool(pull_args()))
            },
            SyncStep::Pull => (SyncStep::Push, ActionView::Tool(push_args())),
            _ => (SyncStep::Done, ActionView::Finish(synced_text())),
        },
    }
}

/// The actions that a run at `step` takes when its actions end as `events` say,
/// one event for each action, up to the end of the run.
pub open spec fn sync_replay(step: SyncStep, events: Seq<EventView>) -> Seq<ActionView>
    decreases events.len(),
{
    if step == SyncStep::Done || events.len() == 0 {
        Seq::empty()
    } else {
        let (next, action) = sync_transition(step, events[0]);
        seq![action] + sync_replay(next, events.drop_first())
    }
}

/// Where no remote is configured (the remote listing prints nothing), a
/// synchronization ends at once with the configuration hint: it neither pulls nor
/// pushes, whatever would have followed.
pub proof fn lemma_no_remote_no_transfer(events: Seq<EventView>)
    requires
        events.len() >= 1,
        events[0] matches EventView::Completed { output_empty: true, .. },
    ensures
        sync_replay(SyncStep::Remotes, events) == seq![ActionView::Finish(no_remote_text())],
{
    assert(sync_replay(SyncStep::Done, events.drop_first()) == Seq::<ActionView>::empty());
    assert(sync_replay(SyncStep::Remotes, events) =~= seq![ActionView::Finish(no_remote_text())]);
}

impl SyncRun {
    /// Starts a synchronization: its first action lists the configured remotes.
    pub fn start() -> (r: (SyncRun, Action))
        ensures
            r.0.step == SyncStep::Remotes,
            r.1@ == ActionView::Tool(remote_list_args()),
    {
        let mut v = no_args();
        push_word(&mut v, "remote");
        push_word(&mut v, "-v");
        assert(words(v@) == remote_list_args());
        (SyncRun { step: SyncStep::Remotes }, Action::Tool(v))
    }

    /// Takes what became of the last action and gives the next one.
    pub fn advance(&mut self, event: Event) -> (r: Action)
        requires
            old(self).step != SyncStep::Done,
        ensures
            (final(self).step, r@) == sync_transition(old(self).step, event@),
    {
        let ghost before = self.step;
        let ghost seen = event@;
        let r = match event {
            Event::Failed { reason } => {
                let mut text = match self.step {
                    SyncStep::Remotes => String::from_str("Failed to check remote repository status"),
                    SyncStep::Pull => String::from_str("Failed to pull changes: "),
                    _ => String::from_str("Failed to push changes: "),
                };
                if self.step != SyncStep::Remotes {
                    text.append(reason.as_str());
                }
                self.step = SyncStep::Done;
                Action::Finish(text)
            },
            Event::Completed { output_empty, .. } => {
                match self.step {
                    SyncStep::Remotes => {
                        if output_empty {
                            self.step = SyncStep::Done;
                            Action::Finish(String::from_str(
                                "No remote repository configured. Please set up a remote repository with 'git remote add origin <repository-url>'",
                            ))
                        } else {
                            self.step = SyncStep::Pull;
                            let mut v = no_args();
                            push_word(&mut v, "pull");
                            push_word(&mut v, "-r");
                            assert(words(v@) == pull_args());
                            Action::Tool(v)
                        }
                    },
                    SyncStep::Pull => {
                        self.step = SyncStep::Push;
                        let mut v = no_args();
                        push_word(&mut v, "push");
                        Action::Tool(v)
                    },
                    _ => {
                        self.step = SyncStep::Done;
                        Action::Finish(String::from_str("Repository successfully synced"))
                    },
                }
            },
        };
        assert((self.step, r@) =~= sync_transition(before, seen));
        r
    }
}

} // verus!
