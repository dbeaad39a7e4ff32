use repo_actions::action::{tool_installed, version_query, Action, Event};
use repo_actions::commit::{CommitRun, CommitStep};
use repo_actions::init::{add_all, InitRun, InitStep};
use repo_actions::sync::{SyncRun, SyncStep};

fn ok() -> Event {
    Event::Completed { exit_ok: true, output_empty: true }
}

fn printed() -> Event {
    Event::Completed { exit_ok: true, output_empty: false }
}

fn failed(reason: &str) -> Event {
    Event::Failed { reason: reason.to_string() }
}

fn tool(args: &[&str]) -> Action {
    Action::Tool(args.iter().map(|a| a.to_string()).collect())
}

fn finish(text: &str) -> Action {
    Action::Finish(text.to_string())
}

#[test]
fn tool_check_needs_a_successful_run() {
    assert!(tool_installed(&Event::Completed { exit_ok: true, output_empty: false }));
    assert!(!tool_installed(&Event::Completed { exit_ok: false, output_empty: false }));
}

#[test]
fn tool_check_absent_binary_is_not_installed() {
    assert!(!tool_installed(&failed("No such file or directory")));
}

#[test]
fn version_query_arguments() {
    assert_eq!(version_query(), vec!["--version".to_string()]);
    assert_eq!(add_all(), vec!["add".to_string(), ".".to_string()]);
}

#[test]
fn init_runs_every_step_in_order() {
    let (mut run, first) = InitRun::start(false);
    assert_eq!(first, tool(&["init"]));
    assert_eq!(
        run.advance(ok()),
        Action::WriteFile { path: ".gitignore".to_string(), contents: ".DS_Store\n".to_string() }
    );
    assert_eq!(run.advance(ok()), tool(&["add", "."]));
    assert_eq!(run.advance(ok()), tool(&["commit", "--allow-empty", "-m", "Initial commit"]));
    assert_eq!(run.advance(ok()), finish("Repository successfully initialized"));
    assert_eq!(run.step, InitStep::Done);
}

#[test]
fn init_twice_commits_twice() {
    let mut commits = 0;
    for _ in 0..2 {
        let (mut run, _) = InitRun::start(false);
        loop {
            match run.advance(ok()) {
                Action::Finish(text) => {
                    assert_eq!(text, "Repository successfully initialized");
                    break;
                }
                Action::Tool(args) if args[0] == "commit" => {
                    assert!(args.contains(&"--allow-empty".to_string()));
                    commits += 1;
                }
                _ => {}
            }
        }
    }
    assert_eq!(commits, 2);
}

#[test]
fn init_with_logging_makes_log_directory() {
    let (mut run, _) = InitRun::start(true);
    assert_eq!(
        run.advance(ok()),
        Action::WriteFile {
            path: ".gitignore".to_string(),
            contents: ".DS_Store\nlog/\n".to_string()
        }
    );
    assert_eq!(run.advance(ok()), Action::MakeDir("log".to_string()));
    assert_eq!(run.advance(ok()), tool(&["add", "."]));
}

#[test]
fn init_failures_name_their_step() {
    let expected = [
        "Failed to initialize repository",
        "Failed to create .gitignore file",
        "Failed to create log directory",
        "Failed to stage files",
        "Failed to create initial commit",
    ];
    for (n, text) in expected.iter().enumerate() {
        let (mut run, _) = InitRun::start(true);
        for _ in 0..n {
            run.advance(ok());
        }
        assert_eq!(run.advance(failed("boom")), finish(text));
        assert_eq!(run.step, InitStep::Done);
    }
}

#[test]
fn commit_with_no_changes_reports_and_stops() {
    let (mut run, first) =
        CommitRun::start(false, "alice".to_string(), "2023-12-01_22-13-20".to_string());
    assert_eq!(first, tool(&["add", "."]));
    assert_eq!(run.advance(ok()), tool(&["status", "--porcelain"]));
    assert_eq!(run.advance(ok()), finish("No changes detected in the repository"));
    assert_eq!(run.step, CommitStep::Done);
}

#[test]
fn commit_with_changes_uses_actor_and_timestamp() {
    let (mut run, _) =
        CommitRun::start(false, "alice".to_string(), "2023-12-01_22-13-20".to_string());
    run.advance(ok());
    assert_eq!(
        run.advance(printed()),
        tool(&["commit", "-m", "alice 2023-12-01_22-13-20"])
    );
    let last = run.advance(ok());
    assert_eq!(last, finish("Changes committed successfully by alice"));
    match last {
        Action::Finish(text) => assert!(text.starts_with("Changes committed successfully by ")),
        _ => unreachable!(),
    }
}

#[test]
fn commit_message_joins_actor_and_timestamp() {
    let (run, _) = CommitRun::start(false, "bob".to_string(), "1970-01-01_00-00-00".to_string());
    assert_eq!(run.message(), "bob 1970-01-01_00-00-00");
}

#[test]
fn commit_with_logging_writes_record() {
    let (mut run, _) =
        CommitRun::start(true, "alice".to_string(), "2023-12-01_22-13-20".to_string());
    run.advance(ok());
    run.advance(printed());
    assert_eq!(
        run.advance(ok()),
        Action::WriteFile {
            path: "log/2023-12-01_22-13-20.log".to_string(),
            contents: "Commit by alice at 2023-12-01_22-13-20".to_string()
        }
    );
    assert_eq!(run.advance(ok()), finish("Changes committed successfully by alice"));
}

#[test]
fn commit_log_failure_still_reports_commit() {
    let (mut run, _) = CommitRun::start(true, "alice".to_string(), "t".to_string());
    run.advance(ok());
    run.advance(printed());
    run.advance(ok());
    assert_eq!(
        run.advance(failed("read-only")),
        finish("Changes committed successfully by alice, but failed to write log")
    );
}

#[test]
fn commit_failures_name_their_step() {
    let (mut run, _) = CommitRun::start(false, "a".to_string(), "t".to_string());
    assert_eq!(run.advance(failed("x")), finish("Failed to stage changes"));
    let (mut run, _) = CommitRun::start(false, "a".to_string(), "t".to_string());
    run.advance(ok());
    assert_eq!(run.advance(failed("x")), finish("Failed to check repository status"));
    let (mut run, _) = CommitRun::start(false, "a".to_string(), "t".to_string());
    run.advance(ok());
    run.advance(printed());
    assert_eq!(run.advance(failed("x")), finish("Failed to commit changes"));
}

#[test]
fn sync_without_remote_gives_hint() {
    let (mut run, first) = SyncRun::start();
    assert_eq!(first, tool(&["remote", "-v"]));
    assert_eq!(
        run.advance(ok()),
        finish("No remote repository configured. Please set up a remote repository with 'git remote add origin <repository-url>'")
    );
    assert_eq!(run.step, SyncStep::Done);
}

#[test]
fn sync_pulls_then_pushes() {
    let (mut run, _) = SyncRun::start();
    assert_eq!(run.advance(printed()), tool(&["pull", "-r"]));
    assert_eq!(run.advance(ok()), tool(&["push"]));
    assert_eq!(run.advance(ok()), finish("Repository successfully synced"));
}

#[test]
fn sync_failures_carry_reason() {
    let (mut run, _) = SyncRun::start();
    assert_eq!(run.advance(failed("x")), finish("Failed to check remote repository status"));
    let (mut run, _) = SyncRun::start();
    run.advance(printed());
    assert_eq!(run.advance(failed("no network")), finish("Failed to pull changes: no network"));
    let (mut run, _) = SyncRun::start();
    run.advance(printed());
    run.advance(ok());
    assert_eq!(run.advance(failed("rejected")), finish("Failed to push changes: rejected"));
}

#[test]
fn commit_begin_formats_actor_and_time() {
    let (mut run, _) = CommitRun::begin(false, None, 0);
    assert_eq!(run.actor, "unknown");
    assert_eq!(run.timestamp, "1970-01-01_00-00-00");
    run.advance(ok());
    assert_eq!(
        run.advance(printed()),
        tool(&["commit", "-m", "unknown 1970-01-01_00-00-00"])
    );
}
