//! The matching rules: which keyword and score findings a record raises.
use vstd::prelude::*;
use crate::anilist::{Activity, MediaList, User};
use crate::text::{concat, contains_str, decimal_of, has_substring, i32_decimal, lower_of, lowercase};

verus! {

/// A finding: a label and its detail.
pub type Finding = (Seq<char>, Seq<char>);

/// The findings that a list of label/detail strings holds.
pub open spec fn pairs_view(m: Seq<(String, String)>) -> Seq<Finding> {
    m.map_values(|p: (String, String)| (p.0@, p.1@))
}

/// The profile link of a user.
pub open spec fn user_link(id: int) -> Seq<char> {
    "https://anilist.co/user/"@ + decimal_of(id)
}

/// The link of an activity.
pub open spec fn activity_link(id: int) -> Seq<char> {
    "https://anilist.co/activity/"@ + decimal_of(id)
}

/// What one keyword finds in an activity: the keyword and the author, and the
/// recipient when there is one, if the lower-cased text holds the lower-cased
/// keyword.
pub open spec fn keyword_activity_flags(kw: Seq<char>, a: Activity) -> Seq<Finding> {
    let k = lower_of(kw);
    if has_substring(lower_of(a.text@), k) {
        seq![("Activity"@, "Contained keyword: "@ + k), ("User"@, user_link(a.user.id as int))]
            + match a.recipient {
            Some(r) => seq![("Message Recipient"@, user_link(r.id as int))],
            None => seq![],
        }
    } else {
        seq![]
    }
}

/// What a list of keywords finds in an activity, keyword by keyword.
pub open spec fn activity_flags(kws: Seq<String>, a: Activity) -> Seq<Finding>
    decreases kws.len(),
{
    if kws.len() == 0 {
        seq![]
    } else {
        activity_flags(kws.drop_last(), a) + keyword_activity_flags(kws.last()@, a)
    }
}

/// What one keyword finds in a user's name and biography.
pub open spec fn keyword_user_flags(kw: Seq<char>, u: User) -> Seq<Finding> {
    let k = lower_of(kw);
    (if has_substring(lower_of(u.name@), k) {
        seq![("Username"@, "Username contained keyword: "@ + k)]
    } else {
        seq![]
    }) + match u.about {
        Some(b) => if has_substring(lower_of(b@), k) {
            seq![("Bio"@, "Bio contained keyword: "@ + k)]
        } else {
            seq![]
        },
        None => seq![],
    }
}

/// What a list of keywords finds in a user, keyword by keyword.
pub open spec fn user_keyword_flags(kws: Seq<String>, u: User) -> Seq<Finding>
    decreases kws.len(),
{
    if kws.len() == 0 {
        seq![]
    } else {
        user_keyword_flags(kws.drop_last(), u) + keyword_user_flags(kws.last()@, u)
    }
}

/// A list entry is poorly scored when it has a score, the score is at most the
/// threshold, and the score is not zero (zero means "not scored").
pub open spec fn poorly_scored(threshold: i32, e: MediaList) -> bool {
    match e.score_tenths {
        Some(s) => s <= 10 * threshold && s != 0,
        None => false,
    }
}

/// One finding per poorly scored entry, in the entries' order.
pub open spec fn entry_flags(threshold: i32, es: Seq<MediaList>) -> Seq<Finding>
    decreases es.len(),
{
    if es.len() == 0 {
        seq![]
    } else {
        entry_flags(threshold, es.drop_last()) + if poorly_scored(threshold, es.last()) {
            seq![("List Entry Score"@, "Media ID poorly scored: "@ + decimal_of(es.last().media_id as int))]
        } else {
            seq![]
        }
    }
}

/// `None` for no findings, else the findings.
pub open spec fn as_match(f: Seq<Finding>, r: Option<Vec<(String, String)>>) -> bool {
    match r {
        None => f.len() == 0,
        Some(m) => f.len() > 0 && pairs_view(m@) == f,
    }
}

/// Builds the profile link of a user.
pub fn user_link_string(id: i32) -> (r: String)
    ensures
        r@ == user_link(id as int),
{
    let d = i32_decimal(id);
    concat("https://anilist.co/user/".to_owned(), d.as_str())
}

/// Builds the link of an activity.
pub fn activity_link_string(id: i32) -> (r: String)
    ensures
        r@ == activity_link(id as int),
{
    let d = i32_decimal(id);
    concat("https://anilist.co/activity/".to_owned(), d.as_str())
}

proof fn lemma_push_pair(m: Seq<(String, String)>, p: (String, String))
    ensures
        pairs_view(m.push(p)) == pairs_view(m).push((p.0@, p.1@)),
{
    assert(pairs_view(m.push(p)) =~= pairs_view(m).push((p.0@, p.1@)));
}

/// Runs the keywords over an activity.
pub fn scan_activity(keywords: &Vec<String>, activity: &Activity) -> (r: Vec<(String, String)>)
    ensures
        pairs_view(r@) == activity_flags(keywords@, *activity),
{
    let text = lowercase(activity.text.as_str());
    let mut matches: Vec<(String, String)> = Vec::new();
    let mut i: usize = 0;
    while i < keywords.len()
        invariant
            i <= keywords@.len(),
            text@ == lower_of(activity.text@),
            pairs_view(matches@) == activity_flags(keywords@.take(i as int), *activity),
        decreases keywords@.len() - i,
    {
        let ghost before = matches@;
        let k = lowercase(keywords[i].as_str());
        if contains_str(text.as_str(), k.as_str()) {
            let p1 = ("Activity".to_owned(), concat("Contained keyword: ".to_owned(), k.as_str()));
            proof { lemma_push_pair(matches@, p1); }
            matches.push(p1);
            let p2 = ("User".to_owned(), user_link_string(activity.user.id));
            proof { lemma_push_pair(matches@, p2); }
            matches.push(p2);
            match &activity.recipient {
                Some(rcp) => {
                    let p3 = ("Message Recipient".to_owned(), user_link_string(rcp.id));
                    proof { lemma_push_pair(matches@, p3); }
                    matches.push(p3);
                },
                None => {},
            }
        }
        proof {
            assert(keywords@.take(i + 1).drop_last() =~= keywords@.take(i as int));
            assert(pairs_view(matches@) =~= pairs_view(before) + keyword_activity_flags(
                keywords@[i as int]@,
                *activity,
            ));
        }
        i += 1;
    }
    assert(keywords@.take(keywords@.len() as int) =~= keywords@);
    matches
}

/// Runs the keywords over a user's name and biography.
pub fn scan_user(keywords: &Vec<String>, user: &User) -> (r: Vec<(String, String)>)
    ensures
        pairs_view(r@) == user_keyword_flags(keywords@, *user),
{
    let name = lowercase(user.name.as_str());
    let about: Option<String> = match &user.about {
        Some(b) => Some(lowercase(b.as_str())),
        None => None,
    };
    let mut matches: Vec<(String, String)> = Vec::new();
    let mut i: usize = 0;
    while i < keywords.len()
        invariant
            i <= keywords@.len(),
            name@ == lower_of(user.name@),
            match user.about {
                Some(b) => about matches Some(l) && l@ == lower_of(b@),
                None => about is None,
            },
            pairs_view(matches@) == user_keyword_flags(keywords@.take(i as int), *user),
        decreases keywords@.len() - i,
    {
        let ghost before = matches@;
        let k = lowercase(keywords[i].as_str());
        if contains_str(name.as_str(), k.as_str()) {
            let p = ("Username".to_owned(), concat("Username contained keyword: ".to_owned(), k.as_str()));
            proof { lemma_push_pair(matches@, p); }
            matches.push(p);
        }
        let ghost mid = matches@;
        match &about {
            Some(b) => {
                if contains_str(b.as_str(), k.as_str()) {
                    let p = ("Bio".to_owned(), concat("Bio contained keyword: ".to_owned(), k.as_str()));
                    proof { lemma_push_pair(matches@, p); }
                    matches.push(p);
                }
            },
            None => {},
        }
        proof {
            assert(keywords@.take(i + 1).drop_last() =~= keywords@.take(i as int));
            assert(pairs_view(matches@) =~= pairs_view(before) + keyword_user_flags(
                keywords@[i as int]@,
                *user,
            ));
        }
        i += 1;
    }
    assert(keywords@.take(keywords@.len() as int) =~= keywords@);
    matches
}

/// Lists the poorly scored entries against a threshold.
pub fn scan_entries(threshold: i32, entries: &Vec<MediaList>) -> (r: Vec<(String, String)>)
    ensures
        pairs_view(r@) == entry_flags(threshold, entries@),
{
    let limit: i64 = 10 * (threshold as i64);
    let mut matches: Vec<(String, String)> = Vec::new();
    let mut i: usize = 0;
    while i < entries.len()
        invariant
            i <= entries@.len(),
            limit == 10 * threshold,
            pairs_view(matches@) == entry_flags(threshold, entries@.take(i as int)),
        decreases entries@.len() - i,
    {
        let ghost before = matches@;
        let e = &entries[i];
        match e.score_tenths {
            Some(s) => {
                if s <= limit && s != 0 {
                    let d = i32_decimal(e.media_id);
                    let p = ("List Entry Score".to_owned(), concat("Media ID poorly scored: ".to_owned(), d.as_str()));
                    proof { lemma_push_pair(matches@, p); }
                    matches.push(p);
                }
            },
            None => {},
        }
        proof {
            assert(entries@.take(i + 1).drop_last() =~= entries@.take(i as int));
        }
        i += 1;
    }
    assert(entries@.take(entries@.len() as int) =~= entries@);
    matches
}

/// An activity's findings are not empty exactly when one of the keywords,
/// lower-cased, occurs in the lower-cased text.
pub proof fn lemma_activity_flagged_iff_keyword(kws: Seq<String>, a: Activity)
    ensures
        activity_flags(kws, a).len() > 0 <==> exists|i: int|
            0 <= i < kws.len() && has_substring(lower_of(a.text@), lower_of(#[trigger] kws[i]@)),
    decreases kws.len(),
{
    if kws.len() > 0 {
        let p = kws.drop_last();
        lemma_activity_flagged_iff_keyword(p, a);
        if has_substring(lower_of(a.text@), lower_of(kws.last()@)) {
            assert(kws[kws.len() - 1] == kws.last());
        }
        if exists|i: int| 0 <= i < kws.len() && has_substring(lower_of(a.text@), lower_of(#[trigger] kws[i]@)) {
            let i = choose|i: int| 0 <= i < kws.len() && has_substring(lower_of(a.text@), lower_of(#[trigger] kws[i]@));
            if i < kws.len() - 1 {
                assert(p[i] == kws[i]);
            }
        }
        if exists|i: int| 0 <= i < p.len() && has_substring(lower_of(a.text@), lower_of(#[trigger] p[i]@)) {
            let i = choose|i: int| 0 <= i < p.len() && has_substring(lower_of(a.text@), lower_of(#[trigger] p[i]@));
            assert(p[i] == kws[i]);
        }
    }
}

/// Each keyword that occurs adds exactly a keyword finding and an author
/// finding, and a recipient finding exactly when the activity has a recipient.
pub proof fn lemma_activity_flag_count(kws: Seq<String>, a: Activity)
    ensures
        activity_flags(kws, a).len() == matching_keywords(kws, a) * (if a.recipient is Some { 3int } else { 2int }),
    decreases kws.len(),
{
    if kws.len() > 0 {
        lemma_activity_flag_count(kws.drop_last(), a);
    }
}

/// How many of the keywords occur in the activity's text, case aside.
pub open spec fn matching_keywords(kws: Seq<String>, a: Activity) -> int
    decreases kws.len(),
{
    if kws.len() == 0 {
        0
    } else {
        matching_keywords(kws.drop_last(), a) + if has_substring(lower_of(a.text@), lower_of(kws.last()@)) { 1int } else { 0int }
    }
}

/// A list entry raises a finding exactly when it is poorly scored: the score
/// is present, at most the threshold, and not zero.
pub proof fn lemma_entry_flagged_iff_poorly_scored(threshold: i32, es: Seq<MediaList>)
    ensures
        entry_flags(threshold, es).len() > 0 <==> exists|i: int|
            0 <= i < es.len() && poorly_scored(threshold, #[trigger] es[i]),
        entry_flags(threshold, es).len() == es.filter(|e: MediaList| poorly_scored(threshold, e)).len(),
    decreases es.len(),
{
    reveal(Seq::filter);
    if es.len() > 0 {
        let p = es.drop_last();
        lemma_entry_flagged_iff_poorly_scored(threshold, p);
        assert(es.filter(|e: MediaList| poorly_scored(threshold, e)) == {
            let fp = p.filter(|e: MediaList| poorly_scored(threshold, e));
            if poorly_scored(threshold, es.last()) { fp.push(es.last()) } else { fp }
        }) by {
            assert(es.drop_last() == p);
        }
        if poorly_scored(threshold, es.last()) {
            assert(es[es.len() - 1] == es.last());
        }
        if exists|i: int| 0 <= i < es.len() && poorly_scored(threshold, #[trigger] es[i]) {
            let i = choose|i: int| 0 <= i < es.len() && poorly_scored(threshold, #[trigger] es[i]);
            if i < es.len() - 1 {
                assert(p[i] == es[i]);
            }
        }
        if exists|i: int| 0 <= i < p.len() && poorly_scored(threshold, #[trigger] p[i]) {
            let i = choose|i: int| 0 <= i < p.len() && poorly_scored(threshold, #[trigger] p[i]);
            assert(p[i] == es[i]);
        }
    }
}

} // verus!
