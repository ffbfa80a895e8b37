//! The control side: reading chat commands, and the supervisor that owns the
//! one active job and decides how its background runner is replaced or
//! stopped.
use vstd::prelude::*;
use std::collections::BTreeSet;
use crate::text::{first_index_of, has_prefix, split_once_char, starts_with_str};
use crate::webhooks::{ActivityJob, Job, UserJob, WebhookJob};

verus! {

/// A command read from a chat message.
#[derive(Debug, Clone, PartialEq, Eq)]
pub enum Command {
    /// Start a job described by the text that follows the command word.
    StartTask(String),
    /// Stop the active job.
    StopTask,
    /// A command word that names neither; it changes nothing.
    Other,
}

/// Why a message carries no command.
#[derive(Debug, Clone, Copy, PartialEq, Eq)]
pub enum CommandError {
    /// The message does not start with `!`.
    NotACommand,
    /// A start command with nothing after the command word.
    MissingBody,
}

/// The command word: the text up to the first space.
pub open spec fn command_word(s: Seq<char>) -> Seq<char> {
    match first_index_of(s, ' ') {
        Some(i) => s.subrange(0, i),
        None => s,
    }
}

/// The text after the first space, if there is one.
pub open spec fn command_body(s: Seq<char>) -> Option<Seq<char>> {
    match first_index_of(s, ' ') {
        Some(i) => Some(s.subrange(i + 1, s.len() as int)),
        None => None,
    }
}

/// Reads the command of a chat message. A command starts with `!`; a word
/// starting with `!start-task` must be followed by a body, a word starting
/// with `!stop-task` stops, and any other word changes nothing.
pub fn parse_command(content: &str) -> (r: Result<Command, CommandError>)
    ensures
        !has_prefix(content@, "!"@) ==> r == Err::<Command, CommandError>(CommandError::NotACommand),
        has_prefix(content@, "!"@) && has_prefix(command_word(content@), "!start-task"@) ==> match command_body(content@) {
            Some(b) => r matches Ok(Command::StartTask(s)) && s@ == b,
            None => r == Err::<Command, CommandError>(CommandError::MissingBody),
        },
        has_prefix(content@, "!"@) && !has_prefix(command_word(content@), "!start-task"@)
            && has_prefix(command_word(content@), "!stop-task"@) ==> r == Ok::<Command, CommandError>(Command::StopTask),
        has_prefix(content@, "!"@) && !has_prefix(command_word(content@), "!start-task"@)
            && !has_prefix(command_word(content@), "!stop-task"@) ==> r == Ok::<Command, CommandError>(Command::Other),
{
    if !starts_with_str(content, "!") {
        return Err(CommandError::NotACommand);
    }
    let parts = split_once_char(content, ' ');
    let (word, body) = match parts {
        Some(p) => (p.0, Some(p.1)),
        None => (content.to_owned(), None),
    };
    if starts_with_str(word.as_str(), "!start-task") {
        match body {
            Some(b) => Ok(Command::StartTask(b)),
            None => Err(CommandError::MissingBody),
        }
    } else if starts_with_str(word.as_str(), "!stop-task") {
        Ok(Command::StopTask)
    } else {
        Ok(Command::Other)
    }
}

/// The kind of the active job.
#[derive(Debug, Clone, Copy, PartialEq, Eq)]
pub enum JobKind {
    User,
    Activity,
}

/// The confirmation sent back to the channel that gave a command.
#[derive(Debug, Clone, Copy, PartialEq, Eq)]
pub enum Reply {
    Started,
    Stopped,
}

/// One step that the control loop performs for the supervisor, in order.
#[derive(Debug, Clone, Copy, PartialEq, Eq)]
pub enum Directive {
    /// Raise the cancellation flag that the running runner polls.
    RequestCancel,
    /// Wait until the running runner has returned.
    AwaitRunner,
    /// Lower the cancellation flag.
    ResetCancel,
    /// Start a runner on a copy of the active job.
    SpawnRunner,
    /// Send a confirmation.
    Reply(Reply),
}

/// The text of a confirmation.
pub fn reply_text(reply: Reply) -> (r: String)
    ensures
        reply == Reply::Started ==> r@
            == "Started task successfully. Any previously running task was cancelled."@,
        reply == Reply::Stopped ==> r@ == "Stopping current task."@,
{
    match reply {
        Reply::Started => "Started task successfully. Any previously running task was cancelled.".to_owned(),
        Reply::Stopped => "Stopping current task.".to_owned(),
    }
}

/// Whether `j` is the job `given`, installed with an empty ledger.
pub open spec fn installed(j: WebhookJob, given: WebhookJob) -> bool {
    match (j, given) {
        (WebhookJob::User(a), WebhookJob::User(b)) => {
            &&& a.channel_id == b.channel_id
            &&& a.token == b.token
            &&& a.job.keywords == b.job.keywords
            &&& a.job.media_ids == b.job.media_ids
            &&& a.job.depth == b.job.depth
            &&& a.job.max_score_threshold == b.job.max_score_threshold
            &&& a.job.found_user_ids@ == Set::<i32>::empty()
        },
        (WebhookJob::Activity(a), WebhookJob::Activity(b)) => {
            &&& a.channel_id == b.channel_id
            &&& a.token == b.token
            &&& a.job.keywords == b.job.keywords
            &&& a.job.user_job == b.job.user_job
            &&& a.job.found_activity_ids@ == Set::<i32>::empty()
        },
        _ => false,
    }
}

/// The steps that stop a runner, when one is alive.
pub open spec fn stop_steps(runner_alive: bool) -> Seq<Directive> {
    if runner_alive {
        seq![Directive::RequestCancel, Directive::AwaitRunner]
    } else {
        seq![]
    }
}

/// Owns the one active job and knows whether a runner is working on it.
#[derive(Debug, Clone)]
pub struct Supervisor {
    pub job: Option<WebhookJob>,
    pub runner_alive: bool,
}

impl Supervisor {
    pub fn new() -> (r: Supervisor)
        ensures
            r.job is None,
            !r.runner_alive,
    {
        Supervisor { job: None, runner_alive: false }
    }

    /// The kind of the active job, if any.
    pub fn active_kind(&self) -> (r: Option<JobKind>)
        ensures
            match self.job {
                None => r is None,
                Some(WebhookJob::User(_)) => r == Some(JobKind::User),
                Some(WebhookJob::Activity(_)) => r == Some(JobKind::Activity),
            },
    {
        match &self.job {
            None => None,
            Some(WebhookJob::User(_)) => Some(JobKind::User),
            Some(WebhookJob::Activity(_)) => Some(JobKind::Activity),
        }
    }

    /// Replaces the active job. A running runner is cancelled and awaited
    /// before anything else happens; then the flag is lowered, the job is
    /// installed with an empty ledger, the start is confirmed, and a new
    /// runner is started.
    pub fn submit(&mut self, job: WebhookJob) -> (r: Vec<Directive>)
        ensures
            final(self).job matches Some(j) && installed(j, job),
            final(self).runner_alive,
            r@ == stop_steps(old(self).runner_alive) + seq![
                Directive::ResetCancel,
                Directive::Reply(Reply::Started),
                Directive::SpawnRunner,
            ],
    {
        let mut steps: Vec<Directive> = Vec::new();
        if self.runner_alive {
            steps.push(Directive::RequestCancel);
            steps.push(Directive::AwaitRunner);
        }
        let fresh = match job {
            WebhookJob::User(j) => WebhookJob::User(
                Job {
                    channel_id: j.channel_id,
                    token: j.token,
                    job: UserJob {
                        keywords: j.job.keywords,
                        media_ids: j.job.media_ids,
                        depth: j.job.depth,
                        max_score_threshold: j.job.max_score_threshold,
                        found_user_ids: BTreeSet::new(),
                    },
                },
            ),
            WebhookJob::Activity(j) => WebhookJob::Activity(
                Job {
                    channel_id: j.channel_id,
                    token: j.token,
                    job: ActivityJob {
                        keywords: j.job.keywords,
                        user_job: j.job.user_job,
                        found_activity_ids: BTreeSet::new(),
                    },
                },
            ),
        };
        self.job = Some(fresh);
        self.runner_alive = true;
        steps.push(Directive::ResetCancel);
        steps.push(Directive::Reply(Reply::Started));
        steps.push(Directive::SpawnRunner);
        assert(steps@ =~= stop_steps(old(self).runner_alive) + seq![
            Directive::ResetCancel,
            Directive::Reply(Reply::Started),
            Directive::SpawnRunner,
        ]);
        steps
    }

    /// Acts on a start command whose body was read as a job, or could not be
    /// read (`None`). An unreadable body changes nothing and asks for
    /// nothing: the active job, if any, keeps running.
    pub fn start(&mut self, parsed: Option<WebhookJob>) -> (r: Vec<Directive>)
        ensures
            parsed is None ==> *final(self) == *old(self) && r@.len() == 0,
            parsed matches Some(job) ==> {
                &&& final(self).job matches Some(j) && installed(j, job)
                &&& final(self).runner_alive
                &&& r@ == stop_steps(old(self).runner_alive) + seq![
                    Directive::ResetCancel,
                    Directive::Reply(Reply::Started),
                    Directive::SpawnRunner,
                ]
            },
    {
        match parsed {
            Some(job) => self.submit(job),
            None => Vec::new(),
        }
    }

    /// Stops the active job: a running runner is cancelled and awaited, the
    /// job is dropped with its ledger, and the stop is confirmed.
    pub fn cancel(&mut self) -> (r: Vec<Directive>)
        ensures
            final(self).job is None,
            !final(self).runner_alive,
            r@ == stop_steps(old(self).runner_alive) + seq![Directive::Reply(Reply::Stopped)],
    {
        let mut steps: Vec<Directive> = Vec::new();
        if self.runner_alive {
            steps.push(Directive::RequestCancel);
            steps.push(Directive::AwaitRunner);
        }
        self.job = None;
        self.runner_alive = false;
        steps.push(Directive::Reply(Reply::Stopped));
        assert(steps@ =~= stop_steps(old(self).runner_alive) + seq![Directive::Reply(Reply::Stopped)]);
        steps
    }
}

/// Whenever a runner is alive when a job is submitted, the steps cancel it
/// and wait for it to return before the new runner is started: the awaiting
/// step comes before the spawning step, and nothing is spawned twice.
pub proof fn lemma_replacement_awaits_old_runner(alive: bool)
    ensures
        ({
            let steps = stop_steps(alive) + seq![
                Directive::ResetCancel,
                Directive::Reply(Reply::Started),
                Directive::SpawnRunner,
            ];
            &&& steps.last() == Directive::SpawnRunner
            &&& forall|i: int| 0 <= i < steps.len() - 1 ==> steps[i] != Directive::SpawnRunner
            &&& alive ==> steps[0] == Directive::RequestCancel && steps[1] == Directive::AwaitRunner
        }),
{
}

impl UserJob {
    /// The first page of a sweep, if the depth allows any.
    pub fn first_page(&self) -> (r: Option<i32>)
        ensures
            r == (if 1 <= self.depth { Some(1i32) } else { None }),
    {
        if 1 <= self.depth {
            Some(1)
        } else {
            None
        }
    }

    /// The page after `page` in a sweep of pages `1..=depth`, or `None` when
    /// the sweep is over and starts again from the first page.
    pub fn next_page(&self, page: i32) -> (r: Option<i32>)
        ensures
            r == (if page < self.depth { Some((page + 1) as i32) } else { None }),
    {
        if page < self.depth {
            Some(page + 1)
        } else {
            None
        }
    }
}

/// The feed page that an activity job polls: the newest activities.
pub const ACTIVITY_PAGE: i32 = 1;

/// Seconds between two polls of an activity job.
pub const POLL_INTERVAL_SECS: u64 = 10;

} // verus!
