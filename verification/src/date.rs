//! The local-date resolver: which calendar day is "today" for a request.
//!
//! The policy is the client-hinted one. A request may name its local date in
//! the header [`LOCAL_DATE_HEADER`] or in the cookie `local_date`, as
//! `YYYY-MM-DD`; the header wins. A hint that does not parse counts as absent.
//! Without a hint, today is the current date at a fixed offset of six hours
//! west of UTC. The resolver never fails. Every function that needs "today"
//! takes it as an argument, so one request sees one date.

use vstd::prelude::*;
use vstd::string::*;
use chrono::{Datelike, FixedOffset, NaiveDate, Utc};
use crate::text::{chars_of, has_prefix_at, opt_view, trim, trim_range, trimmed, without_prefix};

verus! {

/// A calendar date, held as its day number in the proleptic Gregorian
/// calendar: the first of January of the year 1 is day 1. The day before day
/// `n` is day `n - 1`.
#[derive(Clone, Copy, Debug, PartialEq, Eq, Structural)]
pub struct LocalDate(pub i32);

/// The header in which a client names its local date.
pub const LOCAL_DATE_HEADER: &'static str = "X-Local-Date";

/// The start of the cookie pair in which a client names its local date.
pub const LOCAL_DATE_COOKIE: &'static str = "local_date=";

/// The format of a date hint.
pub const DATE_FORMAT: &'static str = "%Y-%m-%d";

/// The offset of the server's default date, in seconds west of UTC.
pub const SERVER_OFFSET_WEST: i32 = 6 * 3600;

/// The day number of the date that `chrono::NaiveDate::parse_from_str` reads
/// from `text` under `format`, as `chrono::Datelike::num_days_from_ce` counts
/// it; `None` where the text does not parse.
pub uninterp spec fn parsed_day_number(text: Seq<char>, format: Seq<char>) -> Option<i32>;

/// Calls `chrono::NaiveDate::parse_from_str` and, on a date, `num_days_from_ce`.
/// The contract claims only that the outcome is a function of the two strings.
#[verifier::external_body]
fn naive_date_from_str(text: &str, format: &str) -> (r: Option<i32>)
    ensures
        r == parsed_day_number(text@, format@),
{
    match NaiveDate::parse_from_str(text, format) {
        Ok(date) => Some(date.num_days_from_ce()),
        Err(_) => None,
    }
}

/// The day number of the calendar date that it is `west` seconds west of UTC
/// at the instant `secs` seconds after the Unix epoch, as chrono's
/// `DateTime::with_timezone`, `date_naive` and `num_days_from_ce` give it.
pub uninterp spec fn day_number_west(secs: i64, west: i32) -> i32;

/// Reads the clock with `chrono::Utc::now` and returns the instant read, in
/// seconds after the Unix epoch, with the day number of its date at the
/// offset `chrono::FixedOffset::west_opt(west)`. `west_opt` accepts the
/// offsets of less than a day. Nothing is claimed of the instant; the day is
/// claimed to be a function of the instant and the offset.
#[verifier::external_body]
fn today_west_of_utc(west: i32) -> (r: (i64, i32))
    requires
        -86_400 < west < 86_400,
    ensures
        r.1 == day_number_west(r.0, west),
{
    let offset = FixedOffset::west_opt(west).unwrap();
    let now = Utc::now();
    (now.timestamp(), now.with_timezone(&offset).date_naive().num_days_from_ce())
}

/// The date that a hint names: the trimmed text read as `YYYY-MM-DD`.
pub open spec fn date_of_text(text: Seq<char>) -> Option<LocalDate> {
    match parsed_day_number(trimmed(text), DATE_FORMAT@) {
        Some(day) => Some(LocalDate(day)),
        None => None,
    }
}

/// The number of characters of `s` before its first `;`.
pub open spec fn pair_len(s: Seq<char>) -> nat
    decreases s.len(),
{
    if s.len() == 0 || s[0] == ';' {
        0
    } else {
        1 + pair_len(s.drop_first())
    }
}

/// The value of the local-date pair in a cookie header: the header is cut at
/// each `;`, each piece is trimmed, and the first piece that starts with
/// [`LOCAL_DATE_COOKIE`] gives what follows that start.
pub open spec fn cookie_date_text(s: Seq<char>) -> Option<Seq<char>>
    decreases s.len(),
{
    let n = pair_len(s);
    match without_prefix(trimmed(s.take(n as int)), LOCAL_DATE_COOKIE@) {
        Some(value) => Some(value),
        None => if n < s.len() {
            cookie_date_text(s.skip(n as int + 1))
        } else {
            None
        },
    }
}

/// The date that a cookie header names. Only the first local-date pair
/// counts: if it does not parse, the header names no date.
pub open spec fn cookie_date(s: Seq<char>) -> Option<LocalDate> {
    match cookie_date_text(s) {
        Some(value) => date_of_text(value),
        None => None,
    }
}

/// The date that the value of the local-date header names, if the request
/// has the header.
pub open spec fn header_date(value: Option<Seq<char>>) -> Option<LocalDate> {
    match value {
        Some(text) => date_of_text(text),
        None => None,
    }
}

/// The date that the value of the cookie header names, if the request has
/// the header.
pub open spec fn cookie_hint(value: Option<Seq<char>>) -> Option<LocalDate> {
    match value {
        Some(text) => cookie_date(text),
        None => None,
    }
}

/// The server's default for today at the instant `now`, in seconds after the
/// Unix epoch: the date six hours west of UTC.
pub open spec fn server_date(now: i64) -> LocalDate {
    LocalDate(day_number_west(now, SERVER_OFFSET_WEST))
}

/// The first of `header` and `cookie` that is there, else `fallback`.
pub open spec fn resolved(header: Option<LocalDate>, cookie: Option<LocalDate>, fallback: LocalDate) -> LocalDate {
    match header {
        Some(date) => date,
        None => match cookie {
            Some(date) => date,
            None => fallback,
        },
    }
}

/// A piece that ends before its first `;`, or at the end of the text, is a
/// whole pair.
proof fn lemma_pair_len(s: Seq<char>, k: nat)
    requires
        k <= s.len(),
        forall|j: int| 0 <= j < k ==> s[j] != ';',
        k < s.len() ==> s[k as int] == ';',
    ensures
        pair_len(s) == k,
    decreases k,
{
    if k > 0 {
        lemma_pair_len(s.drop_first(), (k - 1) as nat);
    }
}

/// Reads a date hint: surrounding whitespace is dropped, the rest must be a
/// date as `YYYY-MM-DD`.
pub fn parse_date(val: &str) -> (r: Option<LocalDate>)
    ensures
        r == date_of_text(val@),
{
    match naive_date_from_str(trim(val), DATE_FORMAT) {
        Some(day) => Some(LocalDate(day)),
        None => None,
    }
}

/// The date named by the value of the header [`LOCAL_DATE_HEADER`], if the
/// request has that header and its value is text.
pub fn parse_from_header(value: Option<&str>) -> (r: Option<LocalDate>)
    ensures
        r == header_date(opt_view(value)),
{
    match value {
        Some(text) => parse_date(text),
        None => None,
    }
}

/// The date named by the cookie `local_date` in the value of a cookie header.
pub fn parse_from_cookie(cookies: &str) -> (r: Option<LocalDate>)
    ensures
        r == cookie_date(cookies@),
{
    let chars = chars_of(cookies);
    let prefix = chars_of(LOCAL_DATE_COOKIE);
    let n = chars.len();
    let mut start: usize = 0;
    assert(chars@.skip(0) =~= chars@);
    loop
        invariant
            start <= n == chars.len(),
            chars@ == cookies@,
            prefix@ == LOCAL_DATE_COOKIE@,
            cookie_date_text(chars@) == cookie_date_text(chars@.skip(start as int)),
        decreases n - start,
    {
        let ghost rest = chars@.skip(start as int);
        let mut end = start;
        while end < n && chars[end] != ';'
            invariant
                start <= end <= n == chars.len(),
                forall|j: int| start <= j < end ==> chars@[j] != ';',
            decreases n - end,
        {
            end += 1;
        }
        proof {
            lemma_pair_len(rest, (end - start) as nat);
            assert(rest.take(end - start) =~= chars@.subrange(start as int, end as int));
        }
        let (a, b) = trim_range(&chars, start, end);
        if has_prefix_at(&chars, a, b, &prefix) {
            let value = cookies.substring_char(a + prefix.len(), b);
            assert(value@ =~= chars@.subrange(a as int, b as int).skip(prefix@.len() as int));
            return parse_date(value);
        }
        if end == n {
            return None;
        }
        assert(rest.skip(end - start + 1) =~= chars@.skip(end + 1));
        start = end + 1;
    }
}

/// The server's default for today: the date that it is six hours west of UTC
/// at the instant at which the clock is read.
pub fn server_today() -> (today: LocalDate)
    ensures
        exists|now: i64| today == server_date(now),
{
    let (now, day) = today_west_of_utc(SERVER_OFFSET_WEST);
    assert(LocalDate(day) == server_date(now));
    LocalDate(day)
}

/// Picks today from the two hints and the server's default: the header's date
/// first, then the cookie's, then the default.
pub fn resolve_local_date(
    header: Option<LocalDate>,
    cookie: Option<LocalDate>,
    fallback: LocalDate,
) -> (today: LocalDate)
    ensures
        today == resolved(header, cookie, fallback),
{
    match header {
        Some(date) => date,
        None => match cookie {
            Some(date) => date,
            None => fallback,
        },
    }
}

impl LocalDate {
    /// The day number of this date.
    pub fn days(&self) -> (n: i32)
        ensures
            n == self.0,
    {
        self.0
    }

    /// Today for a request, from the value of its local-date header and the
    /// value of its cookie header, where it has them: the date that the header
    /// names, else the date that the cookie names, else the server's default
    /// at the instant at which the clock is read. A hint that names no date
    /// counts as absent.
    pub fn from_request_parts(header: Option<&str>, cookie: Option<&str>) -> (today: LocalDate)
        ensures
            exists|now: i64|
                today == resolved(
                    header_date(opt_view(header)),
                    cookie_hint(opt_view(cookie)),
                    server_date(now),
                ),
    {
        let from_header = parse_from_header(header);
        let from_cookie = match cookie {
            Some(text) => parse_from_cookie(text),
            None => None,
        };
        resolve_local_date(from_header, from_cookie, server_today())
    }
}

} // verus!
