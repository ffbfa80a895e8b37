//! Jobs: their configuration, their ledger, the findings they raise on a
//! polled page, and the notification payload for each finding.
use vstd::prelude::*;
use std::collections::BTreeSet;
use crate::anilist::{Activity, MediaList, User};
use crate::embeds::{Embed, EmbedField};
use crate::ledger::{ledger_after, reported, Screened};
use crate::rules::{
    activity_flags, activity_link, activity_link_string, as_match, entry_flags, pairs_view,
    scan_activity, scan_entries, scan_user, user_keyword_flags, user_link, user_link_string,
    Finding,
};
use crate::text::concat;

verus! {

broadcast use vstd::laws_cmp::group_laws_cmp;

/// The body of one notification: a single embed.
#[derive(Debug, Clone)]
pub struct WebhookRequest {
    pub embeds: Vec<Embed>,
}

impl WebhookRequest {
    /// One embed with the given link and title, and one field per finding, in
    /// order.
    pub fn from(url: String, title: String, fields: Vec<(String, String)>) -> (r: Self)
        ensures
            r.embeds@.len() == 1,
            r.embeds@[0].url == url,
            r.embeds@[0].title == title,
            r.embeds@[0].fields@.len() == fields@.len(),
            forall|i: int|
                0 <= i < fields@.len() ==> (#[trigger] r.embeds@[0].fields@[i]).name == fields@[i].0
                    && r.embeds@[0].fields@[i].value == fields@[i].1,
    {
        let mut embed = Embed::from(url, title);
        let mut i: usize = 0;
        while i < fields.len()
            invariant
                i <= fields@.len(),
                embed.url == url,
                embed.title == title,
                embed.fields@.len() == i,
                forall|j: int|
                    0 <= j < i ==> (#[trigger] embed.fields@[j]).name == fields@[j].0
                        && embed.fields@[j].value == fields@[j].1,
            decreases fields@.len() - i,
        {
            let f = EmbedField::from(fields[i].0.clone(), fields[i].1.clone());
            embed.fields.push(f);
            i += 1;
        }
        let mut embeds: Vec<Embed> = Vec::new();
        embeds.push(embed);
        WebhookRequest { embeds }
    }
}

/// Whether a request is exactly the notification for a link, a title and a
/// list of findings.
pub open spec fn request_for(r: WebhookRequest, url: Seq<char>, title: Seq<char>, f: Seq<Finding>) -> bool {
    &&& r.embeds@.len() == 1
    &&& r.embeds@[0].url@ == url
    &&& r.embeds@[0].title@ == title
    &&& r.embeds@[0].fields@.len() == f.len()
    &&& forall|i: int|
        0 <= i < f.len() ==> (#[trigger] r.embeds@[0].fields@[i]).name@ == f[i].0
            && r.embeds@[0].fields@[i].value@ == f[i].1
}

/// A job of either kind, as a start command describes it.
#[derive(Debug, Clone)]
pub enum WebhookJob {
    /// Find a user's account
    User(Job<UserJob>),
    /// Find an activity
    Activity(Job<ActivityJob>),
}

/// A job and where its notifications go.
#[derive(Debug, Clone)]
pub struct Job<T> {
    pub channel_id: String,
    pub token: String,
    pub job: T,
}

/// The address that a job's notifications are posted to.
pub open spec fn webhook_url(channel_id: Seq<char>, token: Seq<char>) -> Seq<char> {
    "https://discord.com/api/webhooks/"@ + channel_id + "/"@ + token
}

impl<T> Job<T> {
    pub fn url(&self) -> (r: String)
        ensures
            r@ == webhook_url(self.channel_id@, self.token@),
    {
        let s = concat("https://discord.com/api/webhooks/".to_owned(), self.channel_id.as_str());
        let s = concat(s, "/");
        concat(s, self.token.as_str())
    }

    /// The notification for a flagged activity: its link, the title
    /// "Activity", and its findings.
    pub fn activity_request(&self, activity: Activity, matches: Vec<(String, String)>) -> (r: WebhookRequest)
        ensures
            request_for(r, activity_link(activity.id as int), "Activity"@, pairs_view(matches@)),
    {
        let url = activity_link_string(activity.id);
        WebhookRequest::from(url, "Activity".to_owned(), matches)
    }

    /// The notification for a flagged user: the profile link, the user's
    /// name as title, and the findings.
    pub fn user_request(&self, user: User, matches: Vec<(String, String)>) -> (r: WebhookRequest)
        ensures
            request_for(r, user_link(user.id as int), user.name@, pairs_view(matches@)),
    {
        let url = user_link_string(user.id);
        WebhookRequest::from(url, user.name, matches)
    }
}

/// Screens new activities.
#[derive(Debug, Clone)]
pub struct ActivityJob {
    /// Look through new activities for keywords
    pub keywords: Vec<String>,
    /// Optionally check the user's profile as well.
    pub user_job: Option<UserJob>,
    /// Activity IDs already reported
    pub found_activity_ids: BTreeSet<i32>,
}

/// Screens user profiles and list entries.
#[derive(Debug, Clone)]
pub struct UserJob {
    /// Check name and bio for keywords
    pub keywords: Vec<String>,
    /// Check the user's list entries for poorly rated media
    pub media_ids: Vec<i32>,
    /// How many pages of users to look back through
    pub depth: i32,
    /// The score to check for (or below)
    pub max_score_threshold: Option<i32>,
    /// User IDs already reported
    pub found_user_ids: BTreeSet<i32>,
}

pub open spec fn entries_view(e: Option<Vec<MediaList>>) -> Option<Seq<MediaList>> {
    match e {
        Some(v) => Some(v@),
        None => None,
    }
}

/// What the threshold rule finds among list entries: nothing without a
/// threshold.
pub open spec fn threshold_flags(job: UserJob, es: Seq<MediaList>) -> Seq<Finding> {
    match job.max_score_threshold {
        Some(t) => entry_flags(t, es),
        None => seq![],
    }
}

/// What a user job finds in a user: keywords first, then list entries when
/// they were fetched.
pub open spec fn user_flags(job: UserJob, u: User, es: Option<Seq<MediaList>>) -> Seq<Finding> {
    user_keyword_flags(job.keywords@, u) + match es {
        Some(es) => threshold_flags(job, es),
        None => seq![],
    }
}

/// What an activity job finds in an activity: nothing unless a keyword
/// occurs; then the activity's findings followed by those of the nested
/// user job on the author.
pub open spec fn activity_job_flags(job: ActivityJob, a: Activity) -> Seq<Finding> {
    let f = activity_flags(job.keywords@, a);
    if f.len() == 0 {
        seq![]
    } else {
        f + match job.user_job {
            Some(u) => user_flags(u, a.user, None),
            None => seq![],
        }
    }
}

pub open spec fn screened_activities(job: ActivityJob, acts: Seq<Activity>) -> Screened {
    acts.map_values(|a: Activity| (a.id, activity_job_flags(job, a)))
}

pub open spec fn screened_users(job: UserJob, us: Seq<(User, Option<Vec<MediaList>>)>) -> Screened {
    us.map_values(|p: (User, Option<Vec<MediaList>>)| (p.0.id, user_flags(job, p.0, entries_view(p.1))))
}

fn into_match(m: Vec<(String, String)>) -> (r: Option<Vec<(String, String)>>)
    ensures
        as_match(pairs_view(m@), r),
{
    if m.len() == 0 {
        None
    } else {
        Some(m)
    }
}

impl UserJob {
    /// Whether each user's list entries must be fetched before screening.
    pub fn needs_media_lists(&self) -> (r: bool)
        ensures
            r == (self.media_ids@.len() > 0),
    {
        self.media_ids.len() > 0
    }

    fn user_findings(&self, user: &User, matched_entries: &Option<Vec<MediaList>>) -> (r: Vec<(String, String)>)
        ensures
            pairs_view(r@) == user_flags(*self, *user, entries_view(*matched_entries)),
    {
        let mut m = scan_user(&self.keywords, user);
        match matched_entries {
            Some(es) => match self.max_score_threshold {
                Some(t) => {
                    let mut e = scan_entries(t, es);
                    let ghost (m0, e0) = (m@, e@);
                    m.append(&mut e);
                    assert(pairs_view(m@) =~= pairs_view(m0) + pairs_view(e0));
                },
                None => {
                    assert(pairs_view(m@) + seq![] =~= pairs_view(m@));
                },
            },
            None => {
                assert(pairs_view(m@) + seq![] =~= pairs_view(m@));
            },
        }
        m
    }

    /// The findings on a user's name, biography and, when given, list
    /// entries; `None` when there are none.
    pub fn flag_user(&self, user: &User, matched_entries: &Option<Vec<MediaList>>) -> (r: Option<Vec<(String, String)>>)
        ensures
            as_match(user_flags(*self, *user, entries_view(*matched_entries)), r),
    {
        into_match(self.user_findings(user, matched_entries))
    }

    /// The poorly scored list entries; `None` without a threshold or when no
    /// entry qualifies.
    pub fn flag_user_entries(&self, entries: &Vec<MediaList>) -> (r: Option<Vec<(String, String)>>)
        ensures
            as_match(threshold_flags(*self, entries@), r),
    {
        match self.max_score_threshold {
            Some(t) => into_match(scan_entries(t, entries)),
            None => None,
        }
    }

    /// Screens one polled page of users, each with the list entries fetched
    /// for it (if any), in order. A user with findings has the identifier
    /// recorded, and is returned with the findings only when the identifier
    /// was not recorded before.
    pub fn find_users(&mut self, users: Vec<(User, Option<Vec<MediaList>>)>) -> (r: Vec<(User, Vec<(String, String)>)>)
        ensures
            final(self).keywords == old(self).keywords,
            final(self).media_ids == old(self).media_ids,
            final(self).depth == old(self).depth,
            final(self).max_score_threshold == old(self).max_score_threshold,
            final(self).found_user_ids@ == ledger_after(
                old(self).found_user_ids@,
                screened_users(*old(self), users@),
            ),
            r@.len() == reported(old(self).found_user_ids@, screened_users(*old(self), users@)).len(),
            forall|j: int|
                0 <= j < r@.len() ==> {
                    let k = reported(old(self).found_user_ids@, screened_users(*old(self), users@))[j];
                    &&& (#[trigger] r@[j]).0 == users@[k].0
                    &&& pairs_view(r@[j].1@) == user_flags(
                        *old(self),
                        users@[k].0,
                        entries_view(users@[k].1),
                    )
                },
    {
        let ghost job = *old(self);
        let ghost all = users@;
        let ghost start = old(self).found_user_ids@;
        let mut rest = users;
        let total: usize = rest.len();
        let mut found: Vec<(User, Vec<(String, String)>)> = Vec::new();
        let mut i: usize = 0;
        while rest.len() > 0
            invariant
                self.keywords == job.keywords,
                self.media_ids == job.media_ids,
                self.depth == job.depth,
                self.max_score_threshold == job.max_score_threshold,
                i + rest@.len() == all.len(),
                all.len() == total,
                rest@ == all.skip(i as int),
                self.found_user_ids@ == ledger_after(start, screened_users(job, all.take(i as int))),
                found@.len() == reported(start, screened_users(job, all.take(i as int))).len(),
                forall|j: int|
                    0 <= j < found@.len() ==> {
                        let k = reported(start, screened_users(job, all.take(i as int)))[j];
                        &&& (#[trigger] found@[j]).0 == all[k].0
                        &&& pairs_view(found@[j].1@) == user_flags(job, all[k].0, entries_view(all[k].1))
                    },
            decreases rest@.len(),
        {
            let ghost prev = screened_users(job, all.take(i as int));
            let ghost next = screened_users(job, all.take(i + 1));
            assert(next.drop_last() =~= prev);
            assert(all.skip(i as int)[0] == all[i as int]);
            let (user, entries) = rest.remove(0);
            let m = self.user_findings(&user, &entries);
            assert(next.last() == (user.id, user_flags(job, user, entries_view(entries))));
            if m.len() > 0 {
                if !self.found_user_ids.contains(&user.id) {
                    self.found_user_ids.insert(user.id);
                    found.push((user, m));
                } else {
                    assert(self.found_user_ids@.insert(user.id) =~= self.found_user_ids@);
                }
            }
            assert(rest@ =~= all.skip(i + 1));
            i += 1;
        }
        assert(all.take(i as int) =~= all);
        found
    }
}

impl ActivityJob {
    /// The findings on an activity's text; `None` when no keyword occurs.
    pub fn flag_activity(&self, activity: &Activity) -> (r: Option<Vec<(String, String)>>)
        ensures
            as_match(activity_flags(self.keywords@, *activity), r),
    {
        into_match(scan_activity(&self.keywords, activity))
    }

    fn activity_findings(&self, activity: &Activity) -> (r: Vec<(String, String)>)
        ensures
            pairs_view(r@) == activity_job_flags(*self, *activity),
    {
        let mut m = scan_activity(&self.keywords, activity);
        if m.len() == 0 {
            assert(pairs_view(m@) =~= seq![]);
            return m;
        }
        match &self.user_job {
            Some(uj) => {
                let mut u = uj.user_findings(&activity.user, &None);
                let ghost (m0, u0) = (m@, u@);
                m.append(&mut u);
                assert(pairs_view(m@) =~= pairs_view(m0) + pairs_view(u0));
            },
            None => {
                assert(pairs_view(m@) + seq![] =~= pairs_view(m@));
            },
        }
        m
    }

    /// Screens one polled page of activities, in order. An activity with
    /// findings has its identifier recorded; it is returned with its findings
    /// only when the identifier was not recorded before.
    pub fn find_activities(&mut self, activities: Vec<Activity>) -> (r: Vec<(Activity, Vec<(String, String)>)>)
        ensures
            final(self).keywords == old(self).keywords,
            final(self).user_job == old(self).user_job,
            final(self).found_activity_ids@ == ledger_after(
                old(self).found_activity_ids@,
                screened_activities(*old(self), activities@),
            ),
            r@.len() == reported(
                old(self).found_activity_ids@,
                screened_activities(*old(self), activities@),
            ).len(),
            forall|j: int|
                0 <= j < r@.len() ==> {
                    let k = reported(
                        old(self).found_activity_ids@,
                        screened_activities(*old(self), activities@),
                    )[j];
                    &&& (#[trigger] r@[j]).0 == activities@[k]
                    &&& pairs_view(r@[j].1@) == activity_job_flags(*old(self), activities@[k])
                },
    {
        let ghost job = *old(self);
        let ghost all = activities@;
        let ghost start = old(self).found_activity_ids@;
        let mut rest = activities;
        let total: usize = rest.len();
        let mut found: Vec<(Activity, Vec<(String, String)>)> = Vec::new();
        let mut i: usize = 0;
        while rest.len() > 0
            invariant
                self.keywords == job.keywords,
                self.user_job == job.user_job,
                i + rest@.len() == all.len(),
                all.len() == total,
                rest@ == all.skip(i as int),
                self.found_activity_ids@ == ledger_after(
                    start,
                    screened_activities(job, all.take(i as int)),
                ),
                found@.len() == reported(start, screened_activities(job, all.take(i as int))).len(),
                forall|j: int|
                    0 <= j < found@.len() ==> {
                        let k = reported(start, screened_activities(job, all.take(i as int)))[j];
                        &&& (#[trigger] found@[j]).0 == all[k]
                        &&& pairs_view(found@[j].1@) == activity_job_flags(job, all[k])
                    },
            decreases rest@.len(),
        {
            let ghost prev = screened_activities(job, all.take(i as int));
            let ghost next = screened_activities(job, all.take(i + 1));
            assert(next.drop_last() =~= prev);
            assert(all.skip(i as int)[0] == all[i as int]);
            let activity = rest.remove(0);
            let m = self.activity_findings(&activity);
            assert(next.last() == (activity.id, activity_job_flags(job, activity)));
            if m.len() > 0 {
                if !self.found_activity_ids.contains(&activity.id) {
                    self.found_activity_ids.insert(activity.id);
                    found.push((activity, m));
                } else {
                    assert(self.found_activity_ids@.insert(activity.id) =~= self.found_activity_ids@);
                }
            }
            assert(rest@ =~= all.skip(i + 1));
            i += 1;
        }
        assert(all.take(i as int) =~= all);
        found
    }
}

} // verus!
