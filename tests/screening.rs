use raidbot::anilist::{Activity, ActivityType, MediaList, User};
use raidbot::webhooks::{ActivityJob, Job, UserJob, WebhookRequest};
use std::collections::BTreeSet;

fn user(id: i32, name: &str, about: Option<&str>) -> User {
    User { id, name: name.to_string(), about: about.map(|s| s.to_string()) }
}

fn activity(id: i32, text: &str, author: User, recipient: Option<User>) -> Activity {
    Activity {
        activity_type: ActivityType::TextActivity,
        id,
        user: author,
        recipient,
        text: text.to_string(),
    }
}

fn activity_job(keywords: &[&str], user_job: Option<UserJob>) -> ActivityJob {
    ActivityJob {
        keywords: keywords.iter().map(|k| k.to_string()).collect(),
        user_job,
        found_activity_ids: BTreeSet::new(),
    }
}

fn user_job(keywords: &[&str], media_ids: Vec<i32>, threshold: Option<i32>) -> UserJob {
    UserJob {
        keywords: keywords.iter().map(|k| k.to_string()).collect(),
        media_ids,
        depth: 3,
        max_score_threshold: threshold,
        found_user_ids: BTreeSet::new(),
    }
}

fn entry(media_id: i32, score_tenths: Option<i64>) -> MediaList {
    MediaList { score_tenths, notes: None, media_id }
}

fn pair(a: &str, b: &str) -> (String, String) {
    (a.to_string(), b.to_string())
}

#[test]
fn activity_job_reports_spoiler_once() {
    let mut job = activity_job(&["spoiler"], None);
    let page = vec![activity(1, "no spoiler here", user(9, "x", None), None)];
    let found = job.find_activities(page.clone());
    assert_eq!(found.len(), 1);
    assert_eq!(found[0].0.id, 1);
    assert_eq!(
        found[0].1,
        vec![pair("Activity", "Contained keyword: spoiler"), pair("User", "https://anilist.co/user/9")]
    );
    assert!(job.found_activity_ids.contains(&1));
    let again = job.find_activities(page);
    assert!(again.is_empty());
}

#[test]
fn user_job_list_entry_scores() {
    let job = user_job(&[], vec![121], Some(10));
    let flagged = job.flag_user_entries(&vec![entry(121, Some(50))]);
    assert_eq!(flagged, Some(vec![pair("List Entry Score", "Media ID poorly scored: 121")]));
    assert_eq!(job.flag_user_entries(&vec![entry(121, Some(0))]), None);
    assert_eq!(job.flag_user_entries(&vec![entry(121, Some(150))]), None);
    let u = user(4, "someone", None);
    assert_eq!(
        job.flag_user(&u, &Some(vec![entry(121, Some(50))])),
        Some(vec![pair("List Entry Score", "Media ID poorly scored: 121")])
    );
    assert_eq!(job.flag_user(&u, &Some(vec![entry(121, Some(0))])), None);
}

#[test]
fn flag_activity_is_case_insensitive_with_recipient() {
    let job = activity_job(&["SpOiLeR", "absent"], None);
    let a = activity(5, "Big SPOILER inside", user(7, "a", None), Some(user(8, "b", None)));
    assert_eq!(
        job.flag_activity(&a),
        Some(vec![
            pair("Activity", "Contained keyword: spoiler"),
            pair("User", "https://anilist.co/user/7"),
            pair("Message Recipient", "https://anilist.co/user/8"),
        ])
    );
    let plain = activity(6, "nothing to see", user(7, "a", None), None);
    assert_eq!(job.flag_activity(&plain), None);
}

#[test]
fn flag_activity_one_entry_set_per_keyword() {
    let job = activity_job(&["a", "b"], None);
    let a = activity(5, "a b", user(-3, "n", None), None);
    let m = job.flag_activity(&a).unwrap();
    assert_eq!(m.len(), 4);
    assert_eq!(m[1], pair("User", "https://anilist.co/user/-3"));
    assert_eq!(m[2], pair("Activity", "Contained keyword: b"));
}

#[test]
fn flag_activity_without_keywords_is_none() {
    let job = activity_job(&[], None);
    let a = activity(5, "anything", user(1, "n", None), None);
    assert_eq!(job.flag_activity(&a), None);
}

#[test]
fn entries_flagged_only_when_scored_low_and_nonzero() {
    let job = user_job(&[], vec![], Some(7));
    let entries = vec![
        entry(1, Some(70)),
        entry(2, Some(71)),
        entry(3, Some(0)),
        entry(4, None),
        entry(5, Some(5)),
    ];
    assert_eq!(
        job.flag_user_entries(&entries),
        Some(vec![
            pair("List Entry Score", "Media ID poorly scored: 1"),
            pair("List Entry Score", "Media ID poorly scored: 5"),
        ])
    );
    let none = user_job(&[], vec![], None);
    assert_eq!(none.flag_user_entries(&entries), None);
    let negative = user_job(&[], vec![], Some(-1));
    assert_eq!(negative.flag_user_entries(&vec![entry(9, Some(-20)), entry(10, Some(0))]),
        Some(vec![pair("List Entry Score", "Media ID poorly scored: 9")]));
}

#[test]
fn flag_user_checks_name_then_bio() {
    let job = user_job(&["Raid"], vec![], None);
    let u = user(3, "RaidLeader", Some("we raid daily"));
    assert_eq!(
        job.flag_user(&u, &None),
        Some(vec![
            pair("Username", "Username contained keyword: raid"),
            pair("Bio", "Bio contained keyword: raid"),
        ])
    );
    let quiet = user(4, "calm", None);
    assert_eq!(job.flag_user(&quiet, &None), None);
}

#[test]
fn nested_user_job_adds_author_findings() {
    let nested = user_job(&["bot"], vec![], Some(10));
    let job = activity_job(&["hello"], Some(nested));
    let mut job = job;
    let page = vec![
        activity(11, "hello there", user(2, "spambot", None), None),
        activity(12, "unrelated", user(3, "spambot", None), None),
    ];
    let found = job.find_activities(page);
    assert_eq!(found.len(), 1);
    assert_eq!(found[0].0.id, 11);
    assert_eq!(found[0].1[2], pair("Username", "Username contained keyword: bot"));
    assert_eq!(found[0].1.len(), 3);
    assert!(!job.found_activity_ids.contains(&12));
}

#[test]
fn duplicate_ids_within_a_page_reported_once() {
    let mut job = activity_job(&["x"], None);
    let page = vec![
        activity(1, "x", user(1, "a", None), None),
        activity(1, "x again", user(1, "a", None), None),
        activity(2, "x", user(1, "a", None), None),
    ];
    let found = job.find_activities(page);
    assert_eq!(found.iter().map(|f| f.0.id).collect::<Vec<_>>(), vec![1, 2]);
    assert_eq!(found[0].0.text, "x");
}

#[test]
fn users_recorded_are_not_reported_again() {
    let mut job = user_job(&["raid"], vec![121], Some(10));
    assert!(job.needs_media_lists());
    let page = vec![
        (user(1, "raider", None), Some(vec![entry(121, Some(90))])),
        (user(2, "calm", None), Some(vec![entry(121, Some(20))])),
        (user(3, "calm", None), None),
    ];
    let found = job.find_users(page.clone());
    assert_eq!(found.len(), 2);
    assert_eq!(found[0].0.id, 1);
    assert_eq!(found[1].1, vec![pair("List Entry Score", "Media ID poorly scored: 121")]);
    assert_eq!(job.found_user_ids.iter().copied().collect::<Vec<_>>(), vec![1, 2]);
    assert!(job.find_users(page).is_empty());
    let fresh = vec![(user(4, "raid4", None), None)];
    assert_eq!(job.find_users(fresh).len(), 1);
}

#[test]
fn webhook_url_and_requests() {
    let job = Job { channel_id: "123".to_string(), token: "tok".to_string(), job: () };
    assert_eq!(job.url(), "https://discord.com/api/webhooks/123/tok");
    let a = activity(42, "t", user(9, "x", None), None);
    let req = job.activity_request(a, vec![pair("n", "v")]);
    assert_eq!(req.embeds.len(), 1);
    assert_eq!(req.embeds[0].url, "https://anilist.co/activity/42");
    assert_eq!(req.embeds[0].title, "Activity");
    assert_eq!(req.embeds[0].fields[0].name, "n");
    assert_eq!(req.embeds[0].fields[0].value, "v");
    let req = job.user_request(user(77, "Name", None), vec![]);
    assert_eq!(req.embeds[0].url, "https://anilist.co/user/77");
    assert_eq!(req.embeds[0].title, "Name");
    assert!(req.embeds[0].fields.is_empty());
}

#[test]
fn webhook_request_keeps_field_order() {
    let req = WebhookRequest::from(
        "u".to_string(),
        "t".to_string(),
        vec![pair("a", "1"), pair("b", "2")],
    );
    assert_eq!(req.embeds.len(), 1);
    let names: Vec<&str> = req.embeds[0].fields.iter().map(|f| f.name.as_str()).collect();
    assert_eq!(names, vec!["a", "b"]);
    assert_eq!(req.embeds[0].fields[1].value, "2");
}

#[test]
fn user_sweep_pages() {
    let job = user_job(&[], vec![], None);
    assert_eq!(job.first_page(), Some(1));
    assert_eq!(job.next_page(1), Some(2));
    assert_eq!(job.next_page(3), None);
    let mut empty = user_job(&[], vec![], None);
    empty.depth = 0;
    assert_eq!(empty.first_page(), None);
    assert!(!empty.needs_media_lists());
}
