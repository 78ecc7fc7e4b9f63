//! How the runs of the update queries are judged: when a run counts as
//! success, when it is tried again, and when the query has failed.

use crate::text::{decimal, push_decimal};
use vstd::prelude::*;
use vstd::string::*;

verus! {

/// Why a query of the package manager failed.
#[derive(Debug)]
pub enum CommandError {
    ExecutionFailed(String),
    NotFound(String),
}

impl CommandError {
    /// The error in words.
    pub open spec fn text(self) -> Seq<char> {
        match self {
            CommandError::ExecutionFailed(detail) => "Command execution failed: "@ + detail@,
            CommandError::NotFound(detail) => "Command not found: "@ + detail@,
        }
    }

    /// The error in words.
    pub fn message(&self) -> (r: String)
        ensures
            r@ == self.text(),
    {
        match self {
            CommandError::ExecutionFailed(detail) => {
                let mut r = "Command execution failed: ".to_string();
                r.append(detail.as_str());
                r
            },
            CommandError::NotFound(detail) => {
                let mut r = "Command not found: ".to_string();
                r.append(detail.as_str());
                r
            },
        }
    }
}

/// How often `checkupdates` is run before the query counts as failed.
pub const MAX_RETRIES: u32 = 3;

/// How long to wait before `checkupdates` is run again, in seconds.
pub const RETRY_DELAY_SECS: u64 = 2;

/// The exit code by which `checkupdates` says that there are no updates.
pub const NO_UPDATES_EXIT_CODE: i32 = 2;

/// How one run of a command ended.
pub enum CommandRun {
    /// The command could not be started; the text says why.
    NotStarted(String),
    /// The command ran and exited.
    Exited { success: bool, code: Option<i32>, stdout: String, stderr: String },
}

/// What follows a run of `checkupdates`.
pub enum RetryStep {
    /// The query is over: its output, or its failure.
    Finished(Result<String, CommandError>),
    /// Report that try `attempt` of `max` has failed, wait `delay_secs`
    /// seconds and run the command again.
    Retry { attempt: u32, max: u32, delay_secs: u64 },
}

/// A `RetryStep` with every text as a sequence of characters.
pub enum RetryStepView {
    Output(Seq<char>),
    Failed(Seq<char>),
    Retry { attempt: u32, max: u32, delay_secs: u64 },
}

impl View for RetryStep {
    type V = RetryStepView;

    open spec fn view(&self) -> RetryStepView {
        match *self {
            RetryStep::Finished(Ok(output)) => RetryStepView::Output(output@),
            RetryStep::Finished(Err(error)) => RetryStepView::Failed(error.text()),
            RetryStep::Retry { attempt, max, delay_secs } => RetryStepView::Retry {
                attempt,
                max,
                delay_secs,
            },
        }
    }
}

/// The failure after the last try, with what the command wrote to its
/// error stream then.
pub open spec fn exhausted_text(stderr: Seq<char>) -> Seq<char> {
    "Command execution failed: "@ + ("Failed after "@ + decimal(MAX_RETRIES as nat)
        + " attempts: "@ + stderr)
}

/// What follows try number `attempt` of `checkupdates`, counted from one.
///
/// A command that could not be started fails the query at once. A run that
/// succeeded, or that exited with the code for "no updates", ends the query
/// with what the command printed. Any other run is tried again until
/// `MAX_RETRIES` runs have been made; then the query has failed.
pub open spec fn after_checkupdates(attempt: u32, run: CommandRun) -> RetryStepView {
    match run {
        CommandRun::NotStarted(why) => RetryStepView::Failed(
            "Command execution failed: "@ + why@,
        ),
        CommandRun::Exited { success, code, stdout, stderr } => {
            if success || code == Some(NO_UPDATES_EXIT_CODE) {
                RetryStepView::Output(stdout@)
            } else if attempt < MAX_RETRIES {
                RetryStepView::Retry { attempt, max: MAX_RETRIES, delay_secs: RETRY_DELAY_SECS }
            } else {
                RetryStepView::Failed(exhausted_text(stderr@))
            }
        },
    }
}

/// Decides what follows try number `attempt` of `checkupdates`.
pub fn judge_checkupdates_run(attempt: u32, run: CommandRun) -> (step: RetryStep)
    ensures
        step@ == after_checkupdates(attempt, run),
{
    match run {
        CommandRun::NotStarted(why) => RetryStep::Finished(
            Err(CommandError::ExecutionFailed(why)),
        ),
        CommandRun::Exited { success, code, stdout, stderr } => {
            let no_updates = match code {
                Some(c) => c == NO_UPDATES_EXIT_CODE,
                None => false,
            };
            if success || no_updates {
                RetryStep::Finished(Ok(stdout))
            } else if attempt < MAX_RETRIES {
                RetryStep::Retry { attempt, max: MAX_RETRIES, delay_secs: RETRY_DELAY_SECS }
            } else {
                let mut detail = "Failed after ".to_string();
                push_decimal(&mut detail, MAX_RETRIES as usize);
                detail.append(" attempts: ");
                detail.append(stderr.as_str());
                RetryStep::Finished(Err(CommandError::ExecutionFailed(detail)))
            }
        },
    }
}

/// What the run of a command that is tried once means, as `paru -Qua` is:
/// its output when it succeeded, and otherwise a failure with what it wrote
/// to its error stream, or with the reason why it could not be started.
pub open spec fn after_single_run(run: CommandRun) -> Result<Seq<char>, Seq<char>> {
    match run {
        CommandRun::NotStarted(why) => Err("Command execution failed: "@ + why@),
        CommandRun::Exited { success, code, stdout, stderr } => {
            if success {
                Ok(stdout@)
            } else {
                Err("Command execution failed: "@ + stderr@)
            }
        },
    }
}

/// The view of the result of a query.
pub open spec fn query_view(r: Result<String, CommandError>) -> Result<Seq<char>, Seq<char>> {
    match r {
        Ok(output) => Ok(output@),
        Err(error) => Err(error.text()),
    }
}

/// Decides what the run of a command that is tried once means.
pub fn judge_single_run(run: CommandRun) -> (r: Result<String, CommandError>)
    ensures
        query_view(r) == after_single_run(run),
{
    match run {
        CommandRun::NotStarted(why) => Err(CommandError::ExecutionFailed(why)),
        CommandRun::Exited { success, code, stdout, stderr } => {
            if success {
                Ok(stdout)
            } else {
                Err(CommandError::ExecutionFailed(stderr))
            }
        },
    }
}

/// The tries are bounded: from try `MAX_RETRIES` on, no run is followed by
/// another, and an earlier run is followed by another only if it ran and
/// failed.
pub proof fn lemma_retries_are_bounded(attempt: u32, run: CommandRun)
    ensures
        attempt >= MAX_RETRIES ==> !(after_checkupdates(attempt, run) is Retry),
        after_checkupdates(attempt, run) is Retry ==> attempt < MAX_RETRIES && (
        run matches CommandRun::Exited { success, code, .. } && !success && code != Some(
            NO_UPDATES_EXIT_CODE,
        )),
        after_checkupdates(attempt, run) matches RetryStepView::Retry {
            attempt: reported,
            max,
            delay_secs,
        } ==> reported == attempt && max == MAX_RETRIES && delay_secs == RETRY_DELAY_SECS,
{
}

/// "No updates" is no failure: a run that exits with that code ends the
/// query with the output of the command, whatever the try.
pub proof fn lemma_no_updates_is_success(attempt: u32, stdout: String, stderr: String)
    ensures
        after_checkupdates(
            attempt,
            CommandRun::Exited {
                success: false,
                code: Some(NO_UPDATES_EXIT_CODE),
                stdout,
                stderr,
            },
        ) == RetryStepView::Output(stdout@),
{
}

} // verus!
