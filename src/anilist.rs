//! Records returned by the remote query service, the paged envelope they come
//! in, and the retry rule for rate-limited queries.
use vstd::prelude::*;
use crate::text::{parse_u64, parsed_u64};

verus! {

/// One error reported inside a query envelope.
#[derive(Debug, Clone)]
pub struct QueryError {
    pub message: Option<String>,
    pub status: Option<i32>,
}

/// The envelope of every query answer: data, errors, or both.
#[derive(Debug, Clone)]
pub struct QueryResponse<R> {
    pub data: Option<R>,
    pub errors: Option<Vec<QueryError>>,
}

#[derive(Debug, Clone)]
pub struct PageInfo {
    pub has_next_page: bool,
}

#[derive(Debug, Clone)]
pub struct PageResponse<R> {
    pub page: Page<R>,
}

#[derive(Debug, Clone)]
pub struct Page<R> {
    pub page: R,
}

/// One entry of a user's media list. The score is kept in tenths of a point,
/// which holds every score the service hands out exactly.
#[derive(Debug, Clone)]
pub struct MediaList {
    pub score_tenths: Option<i64>,
    pub notes: Option<String>,
    pub media_id: i32,
}

#[derive(Debug, Clone, Copy, PartialEq, Eq)]
pub enum ActivityType {
    TextActivity,
    MessageActivity,
}

#[derive(Debug, Clone)]
pub struct User {
    pub id: i32,
    pub name: String,
    pub about: Option<String>,
}

#[derive(Debug, Clone)]
pub struct Activity {
    pub activity_type: ActivityType,
    pub id: i32,
    pub user: User,
    pub recipient: Option<User>,
    pub text: String,
}

#[derive(Debug, Clone)]
pub struct ActivityReply {
    pub id: i32,
    pub activity_id: i32,
    pub user: User,
    pub text: String,
}

/// The items that a paged answer carries: none when the envelope has no data
/// or the page no list.
pub open spec fn items_of<R>(resp: QueryResponse<PageResponse<Option<Vec<R>>>>) -> Seq<R> {
    match resp.data {
        Some(d) => match d.page.page {
            Some(v) => v@,
            None => seq![],
        },
        None => seq![],
    }
}

/// Takes the list of items out of a paged answer.
pub fn page_items<R>(resp: QueryResponse<PageResponse<Option<Vec<R>>>>) -> (r: Vec<R>)
    ensures
        r@ == items_of(resp),
{
    match resp.data {
        Some(d) => match d.page.page {
            Some(v) => v,
            None => Vec::new(),
        },
        None => Vec::new(),
    }
}

/// How many answers a query may receive before it gives up on rate limiting.
pub const MAX_RATE_LIMIT_COUNT: u32 = 5;

/// The wait, in seconds, when the service gives no usable retry delay.
pub const DEFAULT_RETRY_SECS: u64 = 60;

/// The HTTP status of a rate-limited answer.
pub const TOO_MANY_REQUESTS: u16 = 429;

/// The wait that a `Retry-After` header asks for.
pub open spec fn retry_delay(header: Option<Seq<char>>) -> u64 {
    match header {
        Some(h) => match parsed_u64(h) {
            Some(v) => v,
            None => DEFAULT_RETRY_SECS,
        },
        None => DEFAULT_RETRY_SECS,
    }
}

pub open spec fn header_view(header: Option<String>) -> Option<Seq<char>> {
    match header {
        Some(h) => Some(h@),
        None => None,
    }
}

/// Seconds to wait after a rate-limited answer: the header's value when it is
/// a whole number of seconds, else the default.
pub fn retry_after_secs(header: &Option<String>) -> (r: u64)
    ensures
        r == retry_delay(header_view(*header)),
{
    match header {
        Some(h) => match parse_u64(h.as_str()) {
            Some(v) => v,
            None => DEFAULT_RETRY_SECS,
        },
        None => DEFAULT_RETRY_SECS,
    }
}

/// Why a query produced no envelope.
#[derive(Debug, Clone, Copy, PartialEq, Eq)]
pub enum QueryFailure {
    /// The request could not be sent, or its answer not read.
    Transport,
    /// Every allowed answer was a rate-limit answer.
    RateLimitExhausted,
}

/// What to do with an answer.
#[derive(Debug, Clone, Copy, PartialEq, Eq)]
pub enum QueryStep {
    /// Read the answer as the typed envelope, whatever its status.
    Parse,
    /// Wait this many seconds, then send the query again.
    Wait(u64),
}

/// Counts the answers one query has received.
#[derive(Debug, Clone, Copy, PartialEq, Eq)]
pub struct RateLimiter {
    pub attempts: u32,
}

impl RateLimiter {
    pub fn new() -> (r: RateLimiter)
        ensures
            r.attempts == 0,
    {
        RateLimiter { attempts: 0 }
    }

    /// True once no further request may be sent; the query then fails with
    /// `QueryFailure::RateLimitExhausted`.
    pub fn is_exhausted(&self) -> (r: bool)
        ensures
            r == (self.attempts >= MAX_RATE_LIMIT_COUNT),
    {
        self.attempts >= MAX_RATE_LIMIT_COUNT
    }

    /// Decides on one answer: a rate-limited answer means waiting and asking
    /// again; any other status, errors included, is read as the envelope.
    pub fn on_response(&mut self, status: u16, retry_after: &Option<String>) -> (r: QueryStep)
        requires
            old(self).attempts < MAX_RATE_LIMIT_COUNT,
        ensures
            final(self).attempts == old(self).attempts + 1,
            status == TOO_MANY_REQUESTS ==> r == QueryStep::Wait(
                retry_delay(header_view(*retry_after)),
            ),
            status != TOO_MANY_REQUESTS ==> r == QueryStep::Parse,
    {
        self.attempts = self.attempts + 1;
        if status == TOO_MANY_REQUESTS {
            QueryStep::Wait(retry_after_secs(retry_after))
        } else {
            QueryStep::Parse
        }
    }
}

} // verus!
