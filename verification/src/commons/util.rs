use vstd::prelude::*;

verus! {

/// Role tag for the member participant of a session.
pub const MEMBER: &'static str = "member";

/// Role tag for the coach participant of a session.
pub const COACH: &'static str = "coach";

/// Session kind for the per-member sessions fanned out from a conference.
pub const MULTI: &'static str = "multi";

/// Session kind for a stand-alone one-to-one session.
pub const MONO: &'static str = "mono";

/// Error text for a day string that does not parse.
pub const BAD_DATE: &'static str = "Date format error";

/// Outer bound, in epoch seconds, on any timestamp the calendar library can
/// produce: its datetimes span the years -262143..=262142, which stay well
/// inside this figure.
pub const TS_LIMIT: i64 = 9_000_000_000_000;

/// Inner bound, in epoch seconds, under which every timestamp is a
/// representable calendar datetime and can therefore be rendered as text.
pub const FORMAT_LIMIT: i64 = 8_000_000_000_000;

/// A timestamp the date helpers accept: TS_LIMIT with slack for the
/// flooring helpers, which can step a value below the parser's own range.
pub open spec fn ts_ok(t: int) -> bool {
    -TS_LIMIT - 60 <= t <= TS_LIMIT + 60
}

/// The given timestamp, floored to the start of its minute.
pub open spec fn minute_floor(t: int) -> int {
    t - ((t % 60 + 60) % 60)
}

/// The day number (since the epoch) that holds the given timestamp.
pub open spec fn day_floor(t: int) -> int {
    (t - ((t % 86400 + 86400) % 86400)) / 86400
}

/// What the calendar library's parser yields for a text in the schedule
/// pattern `%Y-%m-%dT%H:%M:%SZ`, as seconds since the Unix epoch; `None`
/// where the text does not parse.
pub uninterp spec fn parsed_schedule_of(s: Seq<char>) -> Option<int>;

/// What the calendar library's day parser yields for a text in the pattern
/// `%Y-%m-%d`: the epoch second of that day's midnight; `None` where the
/// text does not parse.
pub uninterp spec fn parsed_day_start_of(s: Seq<char>) -> Option<int>;

/// What the calendar library renders for the given epoch second with the
/// pattern `%Y%m%dT%H%M%SZ`.
pub uninterp spec fn instant_text_of(t: int) -> Seq<char>;

/// Relies on chrono's `NaiveDateTime::parse_from_str` with the pattern
/// `%Y-%m-%dT%H:%M:%SZ`, and `and_utc().timestamp()` for the epoch seconds;
/// chrono datetimes span the years -262143..=262142, so the seconds stay
/// inside TS_LIMIT.
#[verifier::external_body]
fn parse_schedule(date_str: &str) -> (r: Option<i64>)
    ensures
        match r {
            Some(t) => parsed_schedule_of(date_str@) == Some(t as int) && -TS_LIMIT <= t
                <= TS_LIMIT,
            None => parsed_schedule_of(date_str@) is None,
        },
{
    match chrono::NaiveDateTime::parse_from_str(date_str, "%Y-%m-%dT%H:%M:%SZ") {
        Ok(d) => Some(d.and_utc().timestamp()),
        Err(_) => None,
    }
}

/// Relies on chrono's `NaiveDate::parse_from_str` with the pattern
/// `%Y-%m-%d`, taken to that day's midnight as epoch seconds; the whole day,
/// midnight to 23:59, stays inside TS_LIMIT.
#[verifier::external_body]
fn parse_day(date_str: &str) -> (r: Option<i64>)
    ensures
        match r {
            Some(t) => parsed_day_start_of(date_str@) == Some(t as int) && -TS_LIMIT <= t && t
                + 86_340 <= TS_LIMIT,
            None => parsed_day_start_of(date_str@) is None,
        },
{
    match chrono::NaiveDate::parse_from_str(date_str, "%Y-%m-%d") {
        Ok(d) => Some(d.and_time(chrono::NaiveTime::MIN).and_utc().timestamp()),
        Err(_) => None,
    }
}

/// Relies on chrono's `Utc::now` for the clock reading, as epoch seconds;
/// every representable reading stays inside TS_LIMIT.
#[verifier::external_body]
pub fn now() -> (t: i64)
    ensures
        -TS_LIMIT <= t <= TS_LIMIT,
{
    chrono::Utc::now().timestamp()
}

/// Relies on chrono's `DateTime::from_timestamp` and `format` with the
/// pattern `%Y%m%dT%H%M%SZ`; inside FORMAT_LIMIT the timestamp is always a
/// representable datetime.
#[verifier::external_body]
pub fn format_time(given_time: i64) -> (r: String)
    requires
        -FORMAT_LIMIT <= given_time <= FORMAT_LIMIT,
    ensures
        r@ == instant_text_of(given_time as int),
{
    let dt = chrono::DateTime::<chrono::Utc>::from_timestamp(given_time, 0).unwrap();
    dt.format("%Y%m%dT%H%M%SZ").to_string()
}

/// The text a schedule timestamp renders to: its calendar text inside
/// FORMAT_LIMIT, and empty outside it, so that no notification is ever
/// refused over an unrenderable date.
pub open spec fn schedule_text_of(t: int) -> Seq<char> {
    if -FORMAT_LIMIT <= t <= FORMAT_LIMIT {
        instant_text_of(t)
    } else {
        Seq::empty()
    }
}

/// The calendar text of a schedule timestamp; empty where the timestamp
/// cannot be rendered.
pub fn schedule_text(t: i64) -> (r: String)
    ensures
        r@ == schedule_text_of(t as int),
{
    if -FORMAT_LIMIT <= t && t <= FORMAT_LIMIT {
        format_time(t)
    } else {
        String::new()
    }
}

/// Relies on uuid's `Uuid::new_v4`: the hyphenated text of a fresh random
/// UUID, 36 characters in five hyphen-separated groups.
#[verifier::external_body]
pub fn fuzzy_id() -> (r: String)
    ensures
        r@.len() == 36,
        r@[8] == '-' && r@[13] == '-' && r@[18] == '-' && r@[23] == '-',
{
    uuid::Uuid::new_v4().hyphenated().to_string()
}

/// Relies on `String::push`: appends the given character to the end.
#[verifier::external_body]
pub(crate) fn push_char(s: &mut String, c: char)
    ensures
        final(s)@ == old(s)@.push(c),
{
    s.push(c);
}

/// Whether the character has the White_Space property.
pub uninterp spec fn whitespace_char(c: char) -> bool;

/// Relies on `char::is_whitespace`: the White_Space property of the
/// character.
pub assume_specification[ char::is_whitespace ](c: char) -> (r: bool)
    ensures
        r == whitespace_char(c),
;

/// A text that holds nothing but whitespace; what `trim().is_empty()` tells.
pub open spec fn blank_text(s: Seq<char>) -> bool {
    forall|i: int| 0 <= i < s.len() ==> whitespace_char(s[i])
}

/// Whether the text holds nothing but whitespace.
pub fn is_blank(s: &str) -> (r: bool)
    ensures
        r == blank_text(s@),
{
    let len: usize = s.unicode_len();
    let mut i: usize = 0;
    while i < len
        invariant
            0 <= i <= len,
            len == s@.len(),
            forall|j: int| 0 <= j < i ==> whitespace_char(s@[j]),
        decreases len - i,
    {
        let c: char = s.get_char(i);
        if !c.is_whitespace() {
            return false;
        }
        i = i + 1;
    }
    true
}

#[verifier::spinoff_prover]
#[verifier::rlimit(60)]
pub fn strip_seconds(given_date: i64) -> (r: i64)
    requires
        ts_ok(given_date as int),
    ensures
        r == minute_floor(given_date as int),
{
    let m: i64 = given_date % 60;
    let m2: i64 = if m < 0 {
        m + 60
    } else {
        m
    };
    given_date - m2
}

pub fn is_valid_date(date_str: &str) -> (r: bool)
    ensures
        r == (parsed_schedule_of(date_str@) is Some),
{
    parse_schedule(date_str).is_some()
}

/// The schedule text as a timestamp, floored to the minute; where the text
/// does not parse, the current clock reading floored to the minute.
pub fn as_date(date_str: &str) -> (r: i64)
    ensures
        ts_ok(r as int),
        parsed_schedule_of(date_str@) matches Some(t) ==> r == minute_floor(t),
{
    let t: i64 = match parse_schedule(date_str) {
        Some(v) => v,
        None => now(),
    };
    strip_seconds(t)
}

pub fn as_start_date(date_str: &str) -> (r: Result<i64, String>)
    ensures
        match parsed_day_start_of(date_str@) {
            Some(t) => r matches Ok(v) && v == t && ts_ok(v as int),
            None => r matches Err(e) && e@ == BAD_DATE@,
        },
{
    match parse_day(date_str) {
        Some(t) => Ok(t),
        None => Err(BAD_DATE.to_owned()),
    }
}

pub fn as_end_date(date_str: &str) -> (r: Result<i64, String>)
    ensures
        match parsed_day_start_of(date_str@) {
            Some(t) => r matches Ok(v) && v == t + 86_340 && ts_ok(v as int),
            None => r matches Err(e) && e@ == BAD_DATE@,
        },
{
    match parse_day(date_str) {
        Some(t) => Ok(t + 86_340),
        None => Err(BAD_DATE.to_owned()),
    }
}

/// Whether the date's minute lies strictly before the clock reading's
/// minute.
pub fn is_past_date(date: i64, clock: i64) -> (r: bool)
    requires
        ts_ok(date as int),
        ts_ok(clock as int),
    ensures
        r == (minute_floor(date as int) < minute_floor(clock as int)),
{
    strip_seconds(date) < strip_seconds(clock)
}

/// Whether the date's day lies strictly before the clock reading's day.
pub fn is_in_past(given_date: i64, clock: i64) -> (r: bool)
    requires
        ts_ok(given_date as int),
        ts_ok(clock as int),
    ensures
        r == (day_floor(given_date as int) < day_floor(clock as int)),
{
    day_floor_exec(given_date) < day_floor_exec(clock)
}

fn day_floor_exec(t: i64) -> (r: i64)
    requires
        ts_ok(t as int),
    ensures
        r == day_floor(t as int),
{
    let m: i64 = t % 86400;
    let m2: i64 = if m < 0 {
        m + 86400
    } else {
        m
    };
    (t - m2) / 86400
}

pub fn concat(str1: &str, str2: &str) -> (r: String)
    ensures
        r@ == str1@ + " and "@ + str2@,
{
    let joined: String = str1.to_owned().concat(" and ");
    joined.concat(str2)
}

/// What sodiumoxide's `argon2id13::pwhash_verify` tells of a stored
/// 128-byte verification string and a password.
pub uninterp spec fn argon_matches(stored: Seq<char>, password: Seq<char>) -> bool;

/// Relies on sodiumoxide's `init`: readies the library; nothing is claimed
/// of it.
#[verifier::external_body]
fn init_crypto() {
    let _ = sodiumoxide::init();
}

/// Relies on sodiumoxide's `argon2id13::pwhash`: the result is a
/// zero-terminated ASCII verification string of 128 bytes that
/// `pwhash_verify` accepts for the same password; empty where hashing
/// fails.
#[verifier::external_body]
fn argon_pwhash(password: &str) -> (r: String)
    ensures
        r@.len() == 128 || r@.len() == 0,
        r@.len() == 128 ==> r.is_ascii() && argon_matches(r@, password@),
{
    match sodiumoxide::crypto::pwhash::argon2id13::pwhash(
        password.as_bytes(),
        sodiumoxide::crypto::pwhash::argon2id13::OPSLIMIT_INTERACTIVE,
        sodiumoxide::crypto::pwhash::argon2id13::MEMLIMIT_INTERACTIVE,
    ) {
        Ok(h) => match std::str::from_utf8(&h.0) {
            Ok(s) => s.to_string(),
            Err(_) => String::new(),
        },
        Err(_) => String::new(),
    }
}

/// Relies on sodiumoxide's `argon2id13`: `HashedPassword::from_slice` on
/// the 128 stored bytes, then `pwhash_verify` against the password.
#[verifier::external_body]
fn argon_verify(stored: &str, password: &str) -> (r: bool)
    requires
        stored@.len() == 128,
        stored.is_ascii(),
    ensures
        r == argon_matches(stored@, password@),
{
    match sodiumoxide::crypto::pwhash::argon2id13::HashedPassword::from_slice(stored.as_bytes()) {
        Some(hp) => sodiumoxide::crypto::pwhash::argon2id13::pwhash_verify(
            &hp,
            password.as_bytes(),
        ),
        None => false,
    }
}

/// The text, filled out with trailing NUL characters to 128.
pub open spec fn nul_padded(s: Seq<char>) -> Seq<char> {
    if s.len() >= 128 {
        s
    } else {
        s + Seq::new((128 - s.len()) as nat, |i: int| '\0')
    }
}

/// A password verification string for the given password; 128 characters,
/// or empty where the hashing library failed.
pub fn hash(password: &str) -> (r: String)
    ensures
        r@.len() == 128 || r@.len() == 0,
        r@.len() == 128 ==> r.is_ascii() && argon_matches(r@, password@),
{
    init_crypto();
    argon_pwhash(password)
}

/// Whether the stored verification string accepts the given password.
pub fn is_equal(hashed_password: &str, given_password: &str) -> (r: bool)
    requires
        hashed_password@.len() <= 128,
        hashed_password.is_ascii(),
    ensures
        r == argon_matches(nul_padded(hashed_password@), given_password@),
{
    init_crypto();
    let mut padded: String = hashed_password.to_owned();
    while padded.unicode_len() < 128
        invariant
            hashed_password@.len() <= 128,
            hashed_password@.len() <= padded@.len() <= 128,
            padded@ == hashed_password@ + Seq::new(
                (padded@.len() - hashed_password@.len()) as nat,
                |i: int| '\0',
            ),
        decreases 128 - padded@.len(),
    {
        push_char(&mut padded, '\0');
        proof {
            assert(padded@ =~= hashed_password@ + Seq::new(
                (padded@.len() - hashed_password@.len()) as nat,
                |i: int| '\0',
            ));
        }
    }
    let ps: &str = padded.as_str();
    proof {
        assert(ps@ =~= nul_padded(hashed_password@));
        assert forall|i: int| 0 <= i < ps@.len() implies '\0' <= #[trigger] ps@[i] <= '\u{7f}' by {
            if i < hashed_password@.len() {
                assert('\0' <= hashed_password@[i] <= '\u{7f}');
            }
        }
    }
    argon_verify(ps, given_password)
}

/// Whether some element of the texts reads as the given one.
pub open spec fn text_among(xs: Seq<String>, v: Seq<char>) -> bool {
    exists|i: int| 0 <= i < xs.len() && xs[i]@ == v
}

/// Keeps the elements that occur nowhere in `given`.
pub open spec fn absent_from(given: Seq<String>) -> spec_fn(String) -> bool {
    |s: String| !text_among(given, s@)
}

fn contains_text(xs: &Vec<String>, v: &String) -> (r: bool)
    ensures
        r == text_among(xs@, v@),
{
    let mut i: usize = 0;
    while i < xs.len()
        invariant
            0 <= i <= xs@.len(),
            forall|j: int| 0 <= j < i ==> xs@[j]@ != v@,
        decreases xs@.len() - i,
    {
        if xs[i].eq(v) {
            proof {
                assert(xs@[i as int]@ == v@);
            }
            return true;
        }
        i = i + 1;
    }
    false
}

/// The subsequence of `current` whose elements occur nowhere in `given`,
/// order and duplicates kept.
pub fn find_diff(current: Vec<String>, given: Vec<String>) -> (r: Vec<String>)
    ensures
        r@ == current@.filter(absent_from(given@)),
{
    let mut diff: Vec<String> = Vec::new();
    let mut i: usize = 0;
    proof {
        reveal(Seq::filter);
    }
    while i < current.len()
        invariant
            0 <= i <= current@.len(),
            diff@ == current@.take(i as int).filter(absent_from(given@)),
        decreases current@.len() - i,
    {
        if !contains_text(&given, &current[i]) {
            diff.push(current[i].clone());
        }
        proof {
            crate::store::lemma_filter_take_step(current@, absent_from(given@), i as int);
        }
        i = i + 1;
    }
    proof {
        assert(current@.take(current@.len() as int) =~= current@);
    }
    diff
}

} // verus!
