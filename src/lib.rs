/// Actions that a workflow asks of its caller, and what the caller reports back.
pub mod action;
/// Committing every pending change, with a message built from actor and time.
pub mod commit;
/// Who is acting: the user's name from the environment, with a default.
pub mod identity;
/// Creating a repository with its ignore file and initial commit.
pub mod init;
/// Pulling from and pushing to the configured remote.
pub mod sync;
/// Timestamps in fixed year, month and day buckets.
pub mod timestamp;
