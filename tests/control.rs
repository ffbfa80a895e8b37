use raidbot::anilist::{
    page_items, retry_after_secs, Page, PageResponse, QueryResponse, QueryStep, RateLimiter,
};
use raidbot::supervisor::{parse_command, reply_text, Command, CommandError, Directive, JobKind, Reply, Supervisor};
use raidbot::webhooks::{ActivityJob, Job, UserJob, WebhookJob};

fn activity_job_with_ledger(ids: &[i32]) -> WebhookJob {
    WebhookJob::Activity(Job {
        channel_id: "c".to_string(),
        token: "t".to_string(),
        job: ActivityJob {
            keywords: vec!["k".to_string()],
            user_job: None,
            found_activity_ids: ids.iter().copied().collect(),
        },
    })
}

fn user_job() -> WebhookJob {
    WebhookJob::User(Job {
        channel_id: "c2".to_string(),
        token: "t2".to_string(),
        job: UserJob {
            keywords: vec![],
            media_ids: vec![121],
            depth: 10,
            max_score_threshold: Some(10),
            found_user_ids: [5].into_iter().collect(),
        },
    })
}

#[test]
fn four_rate_limits_then_success() {
    let mut limiter = RateLimiter::new();
    for _ in 0..4 {
        assert!(!limiter.is_exhausted());
        assert_eq!(limiter.on_response(429, &Some("0".to_string())), QueryStep::Wait(0));
    }
    assert!(!limiter.is_exhausted());
    assert_eq!(limiter.on_response(200, &None), QueryStep::Parse);
}

#[test]
fn five_rate_limits_exhaust() {
    let mut limiter = RateLimiter::new();
    for _ in 0..5 {
        assert!(!limiter.is_exhausted());
        assert_eq!(limiter.on_response(429, &None), QueryStep::Wait(60));
    }
    assert!(limiter.is_exhausted());
}

#[test]
fn error_statuses_are_parsed() {
    let mut limiter = RateLimiter::new();
    assert_eq!(limiter.on_response(500, &None), QueryStep::Parse);
    assert_eq!(limiter.on_response(404, &Some("5".to_string())), QueryStep::Parse);
}

#[test]
fn retry_after_values() {
    assert_eq!(retry_after_secs(&Some("30".to_string())), 30);
    assert_eq!(retry_after_secs(&Some("+7".to_string())), 7);
    assert_eq!(retry_after_secs(&Some("soon".to_string())), 60);
    assert_eq!(retry_after_secs(&Some("".to_string())), 60);
    assert_eq!(retry_after_secs(&Some("-3".to_string())), 60);
    assert_eq!(retry_after_secs(&Some("18446744073709551615".to_string())), u64::MAX);
    assert_eq!(retry_after_secs(&Some("18446744073709551616".to_string())), 60);
    assert_eq!(retry_after_secs(&None), 60);
}

#[test]
fn page_items_of_envelopes() {
    let full: QueryResponse<PageResponse<Option<Vec<i32>>>> = QueryResponse {
        data: Some(PageResponse { page: Page { page: Some(vec![1, 2]) } }),
        errors: None,
    };
    assert_eq!(page_items(full), vec![1, 2]);
    let no_list: QueryResponse<PageResponse<Option<Vec<i32>>>> = QueryResponse {
        data: Some(PageResponse { page: Page { page: None } }),
        errors: None,
    };
    assert!(page_items(no_list).is_empty());
    let no_data: QueryResponse<PageResponse<Option<Vec<i32>>>> = QueryResponse { data: None, errors: Some(vec![]) };
    assert!(page_items(no_data).is_empty());
}

#[test]
fn commands_are_read() {
    assert_eq!(parse_command("hello"), Err(CommandError::NotACommand));
    assert_eq!(parse_command("!start-task"), Err(CommandError::MissingBody));
    assert_eq!(
        parse_command("!start-task {\"User\": 1}"),
        Ok(Command::StartTask("{\"User\": 1}".to_string()))
    );
    assert_eq!(parse_command("!stop-task"), Ok(Command::StopTask));
    assert_eq!(parse_command("!stop-task now"), Ok(Command::StopTask));
    assert_eq!(parse_command("!other thing"), Ok(Command::Other));
    assert_eq!(parse_command("!start-tasks x"), Ok(Command::StartTask("x".to_string())));
}

#[test]
fn unreadable_start_leaves_job_running() {
    let mut sup = Supervisor::new();
    sup.submit(activity_job_with_ledger(&[]));
    let steps = sup.start(None);
    assert!(steps.is_empty());
    assert!(sup.runner_alive);
    assert_eq!(sup.active_kind(), Some(JobKind::Activity));
}

#[test]
fn replacing_a_job_awaits_the_old_runner_first() {
    let mut sup = Supervisor::new();
    assert_eq!(sup.active_kind(), None);
    let first = sup.submit(activity_job_with_ledger(&[3]));
    assert_eq!(first, vec![Directive::ResetCancel, Directive::Reply(Reply::Started), Directive::SpawnRunner]);
    match &sup.job {
        Some(WebhookJob::Activity(j)) => assert!(j.job.found_activity_ids.is_empty()),
        _ => panic!("activity job expected"),
    }
    let second = sup.start(Some(user_job()));
    assert_eq!(
        second,
        vec![
            Directive::RequestCancel,
            Directive::AwaitRunner,
            Directive::ResetCancel,
            Directive::Reply(Reply::Started),
            Directive::SpawnRunner,
        ]
    );
    assert_eq!(sup.active_kind(), Some(JobKind::User));
    match &sup.job {
        Some(WebhookJob::User(j)) => {
            assert!(j.job.found_user_ids.is_empty());
            assert_eq!(j.job.media_ids, vec![121]);
            assert_eq!(j.token, "t2");
        }
        _ => panic!("user job expected"),
    }
}

#[test]
fn stopping_cancels_and_clears() {
    let mut sup = Supervisor::new();
    assert_eq!(sup.cancel(), vec![Directive::Reply(Reply::Stopped)]);
    sup.submit(user_job());
    assert_eq!(
        sup.cancel(),
        vec![Directive::RequestCancel, Directive::AwaitRunner, Directive::Reply(Reply::Stopped)]
    );
    assert!(sup.job.is_none());
    assert!(!sup.runner_alive);
}

#[test]
fn reply_texts() {
    assert_eq!(reply_text(Reply::Stopped), "Stopping current task.");
    assert_eq!(
        reply_text(Reply::Started),
        "Started task successfully. Any previously running task was cancelled."
    );
}
