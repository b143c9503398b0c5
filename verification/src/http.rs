//! Shapes handed back to callers: the response envelope, the login
//! payload, and the coarse time range of a read request.

use vstd::prelude::*;
use vstd::string::*;
use crate::db::UserForm;
use crate::time::{clock_reading, system_now, Timestamp, SECONDS_PER_DAY};

verus! {

/// Coarse window of history that a read request asks for.
#[derive(Clone, Copy, Debug, PartialEq, Eq, Structural)]
pub enum TimeRange {
    OneDay,
    OneWeek,
    OneMonth,
    OneQuarter,
    All,
}

impl TimeRange {
    /// Length of the window in whole days.
    pub open spec fn days(self) -> int {
        match self {
            TimeRange::OneDay => 1,
            TimeRange::OneWeek => 7,
            TimeRange::OneMonth => 30,
            TimeRange::OneQuarter => 90,
            TimeRange::All => 180,
        }
    }

    /// Length of the window in seconds.
    pub open spec fn seconds(self) -> int {
        self.days() * SECONDS_PER_DAY
    }

    /// The range that a selector names, if it names one.
    pub open spec fn named_by(selector: Seq<char>) -> Option<TimeRange> {
        if selector == "24h"@ {
            Some(TimeRange::OneDay)
        } else if selector == "7d"@ {
            Some(TimeRange::OneWeek)
        } else if selector == "30d"@ {
            Some(TimeRange::OneMonth)
        } else if selector == "90d"@ {
            Some(TimeRange::OneQuarter)
        } else if selector == "all"@ {
            Some(TimeRange::All)
        } else {
            None
        }
    }

    /// Reads a selector: one of `24h`, `7d`, `30d`, `90d`, `all`.
    pub fn parse(selector: &str) -> (range: Option<TimeRange>)
        ensures
            range == TimeRange::named_by(selector@),
    {
        let given = String::from_str(selector);
        if given == String::from_str("24h") {
            Some(TimeRange::OneDay)
        } else if given == String::from_str("7d") {
            Some(TimeRange::OneWeek)
        } else if given == String::from_str("30d") {
            Some(TimeRange::OneMonth)
        } else if given == String::from_str("90d") {
            Some(TimeRange::OneQuarter)
        } else if given == String::from_str("all") {
            Some(TimeRange::All)
        } else {
            None
        }
    }

    /// The window's length in seconds.
    pub fn span_seconds(self) -> (s: i64)
        ensures
            s == self.seconds(),
            0 < s <= 180 * SECONDS_PER_DAY,
    {
        match self {
            TimeRange::OneDay => 86_400,
            TimeRange::OneWeek => 604_800,
            TimeRange::OneMonth => 2_592_000,
            TimeRange::OneQuarter => 7_776_000,
            TimeRange::All => 15_552_000,
        }
    }
}

/// The time range of a read request; absent when the caller named none.
#[derive(Clone, Copy, Debug, PartialEq, Eq, Structural)]
pub struct TimeRangeQuery {
    pub range: Option<TimeRange>,
}

impl TimeRangeQuery {
    /// The range that applies: the one named, or one day when none was.
    pub open spec fn effective(self) -> TimeRange {
        match self.range {
            Some(range) => range,
            None => TimeRange::OneDay,
        }
    }

    /// The earliest instant that a read evaluated at `now` includes.
    pub open spec fn cutoff(self, now: Timestamp) -> Timestamp {
        now.earlier_by(self.effective().seconds())
    }

    /// What a query holds for an optional selector: no selector gives a
    /// query without a range, a known selector its range, and an unknown
    /// selector no query at all.
    pub open spec fn for_selector(selector: Option<Seq<char>>) -> Option<TimeRangeQuery> {
        match selector {
            None => Some(TimeRangeQuery { range: None }),
            Some(text) => match TimeRange::named_by(text) {
                Some(range) => Some(TimeRangeQuery { range: Some(range) }),
                None => None,
            },
        }
    }

    /// Builds the query from the selector of a request, if it is valid.
    pub fn from_selector(selector: Option<&str>) -> (query: Option<TimeRangeQuery>)
        ensures
            query == TimeRangeQuery::for_selector(
                match selector {
                    Some(text) => Some(text@),
                    None => None,
                },
            ),
    {
        match selector {
            None => Some(TimeRangeQuery { range: None }),
            Some(text) => match TimeRange::parse(text) {
                Some(range) => Some(TimeRangeQuery { range: Some(range) }),
                None => None,
            },
        }
    }

    /// The cutoff of a read evaluated at `now`.
    pub fn cutoff_at(&self, now: Timestamp) -> (cutoff: Timestamp)
        requires
            now.secs - 180 * SECONDS_PER_DAY >= i64::MIN,
        ensures
            cutoff == self.cutoff(now),
            cutoff.secs == now.secs - self.effective().seconds(),
            cutoff.nanos == now.nanos,
    {
        let span: i64 = match self.range {
            None => TimeRange::OneDay.span_seconds(),
            Some(range) => range.span_seconds(),
        };
        Timestamp { secs: now.secs - span, nanos: now.nanos }
    }

    /// The cutoff of a read evaluated now, by the system clock.
    pub fn to_cutoff_time(&self) -> (cutoff: Timestamp)
        ensures
            exists|now: Timestamp| clock_reading(now) && cutoff == #[trigger] self.cutoff(now),
            cutoff.wf(),
    {
        let now = system_now();
        self.cutoff_at(now)
    }
}

/// A request without a selector is read as one for the last 24 hours:
/// both queries have the same cutoff at every instant.
pub proof fn lemma_absent_selector_is_one_day(now: Timestamp)
    ensures
        TimeRangeQuery::for_selector(None) matches Some(absent) && TimeRangeQuery::for_selector(
            Some("24h"@),
        ) matches Some(named) && absent.cutoff(now) == named.cutoff(now),
{
}

/// The selector `24h` reaches back exactly 24 hours: the cutoff lies
/// 86 400 seconds before the instant of evaluation, to the nanosecond.
pub proof fn lemma_one_day_is_exact(now: Timestamp)
    requires
        now.secs - SECONDS_PER_DAY >= i64::MIN,
    ensures
        TimeRangeQuery::for_selector(Some("24h"@)) matches Some(query) && query.cutoff(now).secs
            == now.secs - 86_400 && query.cutoff(now).nanos == now.nanos,
{
}

/// No query reaches back further than 180 days, and the selector `all`
/// reaches back exactly that far.
pub proof fn lemma_history_is_bounded(query: TimeRangeQuery, now: Timestamp)
    requires
        now.secs - 180 * SECONDS_PER_DAY >= i64::MIN,
    ensures
        now.earlier_by(180 * SECONDS_PER_DAY).at_or_before(query.cutoff(now)),
        query.cutoff(now).at_or_before(now),
        TimeRangeQuery::for_selector(Some("all"@)) matches Some(all) && all.cutoff(now)
            == now.earlier_by(180 * SECONDS_PER_DAY),
{
    reveal_strlit("all");
    reveal_strlit("24h");
    reveal_strlit("7d");
    reveal_strlit("30d");
    reveal_strlit("90d");
    assert("all"@[0] == 'a' && "24h"@[0] == '2' && "30d"@[0] == '3' && "90d"@[0] == '9');
    assert("all"@.len() == 3 && "7d"@.len() == 2);
}

/// Envelope of every answer: a status, a message on failure, a payload
/// on success.
#[derive(Debug)]
pub struct HttpResponse<T> {
    pub status: u16,
    pub error_msg: Option<String>,
    pub body: Option<T>,
}

/// The text inside an optional string.
pub open spec fn text_of(s: Option<String>) -> Option<Seq<char>> {
    match s {
        Some(text) => Some(text@),
        None => None,
    }
}

impl<T> HttpResponse<T> {
    /// The envelope holds exactly this status, message and payload.
    pub open spec fn holds(self, status: u16, message: Option<Seq<char>>, body: Option<T>) -> bool {
        &&& self.status == status
        &&& text_of(self.error_msg) == message
        &&& self.body == body
    }

    /// A failure envelope with this status and message.
    pub open spec fn fails_with(self, status: u16, message: Seq<char>) -> bool {
        self.holds(status, Some(message), None)
    }

    pub fn success() -> (r: Self)
        ensures
            r.holds(200, None, None),
    {
        HttpResponse { status: 200, error_msg: None, body: None }
    }

    pub fn success_data(data: T) -> (r: Self)
        ensures
            r.holds(200, None, Some(data)),
    {
        HttpResponse { status: 200, error_msg: None, body: Some(data) }
    }

    pub fn bad_request(msg: &str) -> (r: Self)
        ensures
            r.fails_with(400, msg@),
    {
        HttpResponse { status: 400, error_msg: Some(String::from_str(msg)), body: None }
    }

    pub fn unauthorized(msg: &str) -> (r: Self)
        ensures
            r.fails_with(401, msg@),
    {
        HttpResponse { status: 401, error_msg: Some(String::from_str(msg)), body: None }
    }

    pub fn forbidden(msg: &str) -> (r: Self)
        ensures
            r.fails_with(403, msg@),
    {
        HttpResponse { status: 403, error_msg: Some(String::from_str(msg)), body: None }
    }

    pub fn conflicts(msg: &str) -> (r: Self)
        ensures
            r.fails_with(409, msg@),
    {
        HttpResponse { status: 409, error_msg: Some(String::from_str(msg)), body: None }
    }

    pub fn internal_error() -> (r: Self)
        ensures
            r.fails_with(500, "Internal server error"@),
    {
        HttpResponse {
            status: 500,
            error_msg: Some(String::from_str("Internal server error")),
            body: None,
        }
    }
}

/// What a successful login hands back.
#[derive(Debug)]
pub struct LoginResponse {
    pub token: String,
    pub username: String,
    pub role: String,
}

impl LoginResponse {
    pub fn new(token: String, user_form: &UserForm) -> (r: Self)
        ensures
            r.token == token,
            r.username@ == user_form.username@,
            r.role@ == "user"@,
    {
        LoginResponse {
            token,
            username: user_form.username.clone(),
            role: String::from_str("user"),
        }
    }
}

} // verus!
