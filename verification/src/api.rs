use rand::Rng;
use vstd::arithmetic::power2::{lemma2_to64, lemma_pow2_strictly_increases, pow2};
use vstd::bits::lemma_u64_shl_is_mul;
use vstd::prelude::*;
use vstd::utf8::{decode_utf8, encode_utf8, is_char_boundary};

use crate::dates::{
    chrono_parse_date, date_with_year, format_date, is_valid_date, iso_date_text, parse_date,
    CalendarDate,
};
use crate::reading::ANONYMOUS_NAME;
use crate::text::{
    ascii_lowercase, chars_of, concat2, decimal_text, find_at_or_after, find_from, free_of,
    is_ascii_digit, is_ascii_text, lemma_find_from, matches_at, owned, push_decimal, push_str,
    redact, redacted, str_lowercase, to_lowercase, trim, trim_quotes, trimmed, without_quotes,
};

verus! {

/// How many times a request is sent before a rate limit is given up on.
pub const MAX_RETRIES: u32 = 10;

/// The smallest cap of the random wait, in milliseconds.
pub const BACKOFF_BASE_MS: u64 = 30_000;

/// The largest cap of the random wait, in milliseconds.
pub const BACKOFF_MAX_MS: u64 = 120_000;

/// Seconds added to a wait that the service asked for.
pub const RETRY_BUFFER_SECS: u64 = 2;

// ---------------------------------------------------------------------------
// Wire types
// ---------------------------------------------------------------------------

/// A content filter setting sent with a request.
#[derive(Debug, Clone)]
pub struct SafetySetting {
    pub category: String,
    pub threshold: String,
}

/// One message of a request.
#[derive(Debug, Clone)]
pub struct GeminiContent {
    pub role: String,
    pub parts: Vec<GeminiPart>,
}

/// One text part of a request message.
#[derive(Debug, Clone)]
pub struct GeminiPart {
    pub text: String,
}

/// Generation settings. The sampling temperature is held in thousandths.
#[derive(Debug, Clone)]
pub struct GenerationConfig {
    pub max_output_tokens: u32,
    pub temperature_per_mille: u32,
}

/// A `generateContent` request.
#[derive(Debug, Clone)]
pub struct GeminiRequest {
    pub contents: Vec<GeminiContent>,
    pub generation_config: GenerationConfig,
    pub safety_settings: Vec<SafetySetting>,
}

/// A `generateContent` reply.
#[derive(Debug, Clone)]
pub struct GeminiResponse {
    pub candidates: Option<Vec<GeminiCandidate>>,
    pub usage_metadata: Option<GeminiUsageMetadata>,
}

/// One candidate answer of a reply.
#[derive(Debug, Clone)]
pub struct GeminiCandidate {
    pub content: GeminiCandidateContent,
}

/// The content of a candidate answer.
#[derive(Debug, Clone)]
pub struct GeminiCandidateContent {
    pub parts: Vec<GeminiCandidatePart>,
}

/// One text part of a candidate answer.
#[derive(Debug, Clone)]
pub struct GeminiCandidatePart {
    pub text: String,
}

/// Token counts that a reply reports.
#[derive(Debug, Clone)]
pub struct GeminiUsageMetadata {
    pub prompt_token_count: Option<u64>,
    pub candidates_token_count: Option<u64>,
    pub total_token_count: Option<u64>,
}

/// The body of an error reply.
#[derive(Debug, Clone)]
pub struct GeminiErrorEnvelope {
    pub error: GeminiErrorBody,
}

/// The error that an error reply describes.
#[derive(Debug, Clone)]
pub struct GeminiErrorBody {
    pub code: u16,
    pub message: String,
    pub status: String,
}

/// Why a call to the service failed.
#[derive(Debug, Clone)]
pub enum GeminiError {
    /// The service answered 429; what it said of when to come back.
    RateLimited { retry_after_secs: Option<u64>, message: Option<String> },
    /// The service answered with an error status.
    ServerError(String),
    /// The request did not reach the service or no answer came back.
    RequestFailed(String),
    /// The answer could not be read.
    ParseError(String),
}

/// What `{:?}` writes for a text: the text in double quotes, with double
/// quotes, backslashes, control characters and other characters that cannot
/// be shown escaped; a single quote is written as it is.
pub uninterp spec fn debug_text(s: Seq<char>) -> Seq<char>;

/// Calls `format!("{:?}", s)` on a `&str`. The result is named `debug_text`, a
/// function of the text alone; nothing more is stated of it.
#[verifier::external_body]
fn debug_quoted(s: &str) -> (r: String)
    ensures
        r@ == debug_text(s@),
{
    format!("{:?}", s)
}

/// What `{:?}` writes for an `Option<u64>`.
pub open spec fn debug_option_u64(o: Option<u64>) -> Seq<char> {
    match o {
        None => "None"@,
        Some(n) => "Some("@ + decimal_text(n as nat) + ")"@,
    }
}

/// What `{:?}` writes for an `Option<String>`.
pub open spec fn debug_option_text(o: Option<String>) -> Seq<char> {
    match o {
        None => "None"@,
        Some(t) => "Some("@ + debug_text(t@) + ")"@,
    }
}

impl GeminiError {
    /// The text of the error as it is shown to the user.
    pub open spec fn description(self) -> Seq<char> {
        match self {
            GeminiError::RateLimited { retry_after_secs, message } => "Rate limited (retry_after="@
                + debug_option_u64(retry_after_secs) + "s, message="@ + debug_option_text(message)
                + ")"@,
            GeminiError::ServerError(m) => "Server error: "@ + m@,
            GeminiError::RequestFailed(m) => "Request failed: "@ + m@,
            GeminiError::ParseError(m) => "Parse error: "@ + m@,
        }
    }

    /// The text of the error as it is shown to the user (see `description`).
    pub fn describe(&self) -> (r: String)
        ensures
            r@ == self.description(),
    {
        match self {
            GeminiError::RateLimited { retry_after_secs, message } => {
                let mut r = owned("Rate limited (retry_after=");
                match retry_after_secs {
                    None => push_str(&mut r, "None"),
                    Some(n) => {
                        push_str(&mut r, "Some(");
                        push_decimal(&mut r, *n);
                        push_str(&mut r, ")");
                    },
                }
                push_str(&mut r, "s, message=");
                match message {
                    None => push_str(&mut r, "None"),
                    Some(m) => {
                        push_str(&mut r, "Some(");
                        let quoted = debug_quoted(m.as_str());
                        push_str(&mut r, quoted.as_str());
                        push_str(&mut r, ")");
                    },
                }
                push_str(&mut r, ")");
                r
            },
            GeminiError::ServerError(m) => concat2("Server error: ", m.as_str()),
            GeminiError::RequestFailed(m) => concat2("Request failed: ", m.as_str()),
            GeminiError::ParseError(m) => concat2("Parse error: ", m.as_str()),
        }
    }
}

// ---------------------------------------------------------------------------
// Backoff
// ---------------------------------------------------------------------------

/// How long to wait before the next attempt.
#[derive(Debug, Clone, Copy, PartialEq, Eq, Structural)]
pub enum Delay {
    Secs(u64),
    Millis(u64),
}

impl Delay {
    /// The length of the wait in milliseconds.
    pub open spec fn millis(self) -> nat {
        match self {
            Delay::Secs(s) => s as nat * 1000,
            Delay::Millis(m) => m as nat,
        }
    }
}

/// `2^attempt`, or `2^31` where `attempt` is too large a shift for a `u64`.
pub open spec fn doubling_factor(attempt: u32) -> nat {
    if attempt < 64 {
        pow2(attempt as nat)
    } else {
        pow2(31)
    }
}

/// The cap of the random wait after the given attempt, in milliseconds:
/// `BACKOFF_BASE_MS * doubling_factor(attempt)`, saturated at `u64::MAX`, at
/// most `BACKOFF_MAX_MS`.
pub open spec fn exponential_cap(attempt: u32) -> nat {
    let p: nat = BACKOFF_BASE_MS as nat * doubling_factor(attempt);
    let saturated = if p > u64::MAX { u64::MAX as nat } else { p };
    if saturated < BACKOFF_MAX_MS {
        saturated
    } else {
        BACKOFF_MAX_MS as nat
    }
}

/// The cap of the random wait is 30 s after the first attempt, 60 s after the
/// second and 120 s after every later one.
pub proof fn lemma_exponential_cap_values(attempt: u32)
    ensures
        attempt == 0 ==> exponential_cap(attempt) == 30_000,
        attempt == 1 ==> exponential_cap(attempt) == 60_000,
        attempt >= 2 ==> exponential_cap(attempt) == 120_000,
        BACKOFF_BASE_MS <= exponential_cap(attempt) <= BACKOFF_MAX_MS,
{
    lemma2_to64();
    if attempt >= 2 {
        let k: nat = if attempt < 64 { attempt as nat } else { 31 };
        if k > 2 {
            lemma_pow2_strictly_increases(2, k);
        }
        assert(doubling_factor(attempt) >= 4);
        assert(BACKOFF_BASE_MS * doubling_factor(attempt) >= 120_000) by (nonlinear_arith)
            requires
                doubling_factor(attempt) >= 4,
                BACKOFF_BASE_MS == 30_000,
        ;
    }
}

/// The cap of the random wait after the given attempt (saturating arithmetic,
/// as the service client computes it).
pub fn exponential_cap_ms(attempt: u32) -> (r: u64)
    ensures
        r == exponential_cap(attempt),
{
    let factor: u64 = if attempt < 64 {
        proof {
            vstd::bits::lemma_u64_pow2_no_overflow(attempt as nat);
            lemma_u64_shl_is_mul(1, attempt as u64);
        }
        1u64 << (attempt as u64)
    } else {
        proof {
            lemma2_to64();
            lemma_u64_shl_is_mul(1, 31);
        }
        1u64 << 31u64
    };
    assert(factor == doubling_factor(attempt));
    let product: u64 = match BACKOFF_BASE_MS.checked_mul(factor) {
        Some(p) => p,
        None => u64::MAX,
    };
    if product < BACKOFF_MAX_MS {
        product
    } else {
        BACKOFF_MAX_MS
    }
}

/// Calls `rand::thread_rng().gen_range(0..=hi)`: a number drawn at random from
/// `0..=hi`. Nothing is stated of which one; the range is never empty, so the
/// call does not panic.
#[verifier::external_body]
fn random_up_to(hi: u64) -> (r: u64)
    ensures
        r <= hi,
{
    rand::thread_rng().gen_range(0..=hi)
}

/// What `backoff_duration` waits, for every possible outcome of the random draw.
pub open spec fn backoff_allows(
    attempt: u32,
    hint_secs: Option<u64>,
    message_secs: Option<u64>,
    d: Delay,
) -> bool {
    match message_secs {
        Some(m) => d == Delay::Secs((m + RETRY_BUFFER_SECS) as u64),
        None => match hint_secs {
            Some(h) => d == Delay::Secs((h + RETRY_BUFFER_SECS) as u64),
            None => d matches Delay::Millis(ms) && BACKOFF_BASE_MS <= ms <= exponential_cap(
                attempt,
            ),
        },
    }
}

/// The wait is free of overflow: a wait that the service asked for leaves room
/// for the buffer.
pub open spec fn backoff_in_range(hint_secs: Option<u64>, message_secs: Option<u64>) -> bool {
    match message_secs {
        Some(m) => m + RETRY_BUFFER_SECS <= u64::MAX,
        None => match hint_secs {
            Some(h) => h + RETRY_BUFFER_SECS <= u64::MAX,
            None => true,
        },
    }
}

/// The three tiers of the wait after a rate limit, for every wait that
/// `backoff_allows`: a wait of `m` seconds named in the error message gives
/// `m + 2` seconds, whatever the `Retry-After` header says; the header's `h`
/// seconds give `h + 2` seconds only when the message names none; with
/// neither, the wait is at least 30 s and at most 120 s, given in
/// milliseconds, and exactly 30 s after the first attempt.
pub proof fn lemma_backoff_priority(
    attempt: u32,
    hint_secs: Option<u64>,
    message_secs: Option<u64>,
    d: Delay,
)
    requires
        backoff_allows(attempt, hint_secs, message_secs, d),
    ensures
        message_secs matches Some(m) ==> d == Delay::Secs((m + 2) as u64),
        message_secs is None ==> (hint_secs matches Some(h) ==> d == Delay::Secs((h + 2) as u64)),
        (message_secs is None && hint_secs is None) ==> (d matches Delay::Millis(ms) && 30_000
            <= ms <= 120_000 && (attempt == 0 ==> ms == 30_000)),
{
    lemma_exponential_cap_values(attempt);
}

/// How long to wait after a rate limit on the given attempt. A wait that the
/// error message names (`message_secs`, the number in it rounded up) comes
/// first, then the `Retry-After` header (`hint_secs`), each with two seconds
/// added; without either, a random wait of at least `BACKOFF_BASE_MS` and at
/// most `exponential_cap(attempt)`.
pub fn backoff_duration(attempt: u32, hint_secs: Option<u64>, message_secs: Option<u64>) -> (r:
    Delay)
    requires
        backoff_in_range(hint_secs, message_secs),
    ensures
        backoff_allows(attempt, hint_secs, message_secs, r),
        message_secs matches Some(m) ==> r == Delay::Secs((m + 2) as u64),
        message_secs is None ==> (hint_secs matches Some(h) ==> r == Delay::Secs((h + 2) as u64)),
        (message_secs is None && hint_secs is None) ==> (r matches Delay::Millis(ms) && 30_000
            <= ms <= 120_000),
{
    let d = if let Some(m) = message_secs {
        Delay::Secs(m + RETRY_BUFFER_SECS)
    } else if let Some(h) = hint_secs {
        Delay::Secs(h + RETRY_BUFFER_SECS)
    } else {
        let cap = exponential_cap_ms(attempt);
        proof {
            lemma_exponential_cap_values(attempt);
        }
        Delay::Millis(BACKOFF_BASE_MS + random_up_to(cap - BACKOFF_BASE_MS))
    };
    proof {
        lemma_backoff_priority(attempt, hint_secs, message_secs, d);
    }
    d
}

// ---------------------------------------------------------------------------
// The retry loop
// ---------------------------------------------------------------------------

/// What the caller does after an attempt.
#[derive(Debug)]
pub enum RetryAction {
    /// Stop and hand this result back.
    Finish(Result<String, GeminiError>),
    /// Wait this long, then make the next attempt.
    Retry(Delay),
}

/// The decision after attempt `attempt` (counted from 0) ended with `outcome`:
/// a text is handed back; a rate limit is waited out, except on the last
/// attempt, where it is handed back; every other error is handed back at once.
pub open spec fn retry_decision(
    attempt: u32,
    outcome: Result<String, GeminiError>,
    message_secs: Option<u64>,
    r: RetryAction,
) -> bool {
    match outcome {
        Err(GeminiError::RateLimited { retry_after_secs, .. }) => if attempt + 1 == MAX_RETRIES {
            r == RetryAction::Finish(outcome)
        } else {
            r matches RetryAction::Retry(d) && backoff_allows(
                attempt,
                retry_after_secs,
                message_secs,
                d,
            )
        },
        _ => r == RetryAction::Finish(outcome),
    }
}

/// The decision after attempt `attempt` (counted from 0) ended with `outcome`
/// (see `retry_decision`). `message_secs` is the wait that the rate-limit
/// message names, rounded up.
pub fn retry_step(attempt: u32, outcome: Result<String, GeminiError>, message_secs: Option<u64>) -> (r:
    RetryAction)
    requires
        attempt < MAX_RETRIES,
        outcome matches Err(GeminiError::RateLimited { retry_after_secs, .. }) ==> (attempt + 1
            < MAX_RETRIES ==> backoff_in_range(retry_after_secs, message_secs)),
    ensures
        retry_decision(attempt, outcome, message_secs, r),
{
    match outcome {
        Err(GeminiError::RateLimited { retry_after_secs, message }) => {
            if attempt == MAX_RETRIES - 1 {
                RetryAction::Finish(Err(GeminiError::RateLimited { retry_after_secs, message }))
            } else {
                RetryAction::Retry(backoff_duration(attempt, retry_after_secs, message_secs))
            }
        },
        other => RetryAction::Finish(other),
    }
}

/// The last attempt never asks for another, so the loop makes at most
/// `MAX_RETRIES` attempts; only a rate limit leads to another attempt; and a
/// wait that the service did not ask for is at least `BACKOFF_BASE_MS` and at
/// most `BACKOFF_MAX_MS`.
pub proof fn lemma_retry_bounded(
    attempt: u32,
    outcome: Result<String, GeminiError>,
    message_secs: Option<u64>,
    r: RetryAction,
)
    requires
        attempt < MAX_RETRIES,
        outcome matches Err(GeminiError::RateLimited { retry_after_secs, .. }) ==> (attempt + 1
            < MAX_RETRIES ==> backoff_in_range(retry_after_secs, message_secs)),
        retry_decision(attempt, outcome, message_secs, r),
    ensures
        attempt + 1 == MAX_RETRIES ==> r is Finish,
        r is Retry ==> outcome matches Err(GeminiError::RateLimited { .. }),
        r matches RetryAction::Retry(d) ==> match outcome {
            Err(GeminiError::RateLimited { retry_after_secs, .. }) => match (message_secs, retry_after_secs) {
                (None, None) => BACKOFF_BASE_MS <= d.millis() <= BACKOFF_MAX_MS,
                _ => d.millis() >= RETRY_BUFFER_SECS * 1000,
            },
            _ => false,
        },
{
    lemma_exponential_cap_values(attempt);
}

// ---------------------------------------------------------------------------
// When to come back
// ---------------------------------------------------------------------------

pub open spec fn is_number_char(c: char) -> bool {
    is_ascii_digit(c) || c == '.'
}

/// The longest prefix of `s` made of ASCII digits and dots.
pub open spec fn leading_number(s: Seq<char>) -> Seq<char>
    decreases s.len(),
{
    if s.len() > 0 && is_number_char(s[0]) {
        seq![s[0]] + leading_number(s.drop_first())
    } else {
        Seq::empty()
    }
}

/// The digits and dots right after the first `pat` in `s`, if there are any.
pub open spec fn number_after(s: Seq<char>, pat: Seq<char>) -> Option<Seq<char>> {
    match find_from(s, pat, 0) {
        Some(i) => {
            let run = leading_number(s.skip(i + pat.len()));
            if run.len() > 0 {
                Some(run)
            } else {
                None
            }
        },
        None => None,
    }
}

/// The number that a lower-case error message gives after "retry in ", or
/// else after "retry after ".
pub open spec fn retry_hint(lower: Seq<char>) -> Option<Seq<char>> {
    match number_after(lower, "retry in "@) {
        Some(run) => Some(run),
        None => number_after(lower, "retry after "@),
    }
}

/// The leading number of `s` is a prefix of `s` made of digits and dots.
pub proof fn lemma_leading_number(s: Seq<char>)
    ensures
        leading_number(s).len() <= s.len(),
        forall|i: int| 0 <= i < leading_number(s).len() ==> is_number_char(#[trigger] leading_number(s)[i]),
        forall|i: int| 0 <= i < leading_number(s).len() ==> leading_number(s)[i] == s[i],
    decreases s.len(),
{
    if s.len() > 0 && is_number_char(s[0]) {
        let t = s.drop_first();
        lemma_leading_number(t);
        assert(leading_number(s) == seq![s[0]] + leading_number(t));
        assert forall|i: int| 0 <= i < leading_number(s).len() implies leading_number(s)[i]
            == s[i] by {
            if i > 0 {
                assert(leading_number(s)[i] == leading_number(t)[i - 1]);
                assert(leading_number(t)[i - 1] == t[i - 1]);
            }
        }
    }
}

/// The digits and dots right after the first `pat` in `v`.
fn number_after_in(v: &Vec<char>, pat: &str) -> (r: Option<String>)
    ensures
        match r {
            Some(t) => number_after(v@, pat@) == Some(t@),
            None => number_after(v@, pat@) is None,
        },
{
    let p = chars_of(pat);
    proof {
        lemma_find_from(v@, pat@, 0);
    }
    match find_at_or_after(v, &p, 0) {
        Some(i) => {
            assert(matches_at(v@, p@, i as int));
            assert(i + p@.len() <= v@.len());
            assert(v@.len() == v.len());
            let start = i + p.len();
            let mut j = start;
            assert(v@.subrange(start as int, start as int) + leading_number(v@.skip(start as int))
                == leading_number(v@.skip(start as int)));
            while j < v.len() && (('0' <= v[j] && v[j] <= '9') || v[j] == '.')
                invariant
                    start <= j <= v.len(),
                    leading_number(v@.skip(start as int)) == v@.subrange(start as int, j as int)
                        + leading_number(v@.skip(j as int)),
                decreases v.len() - j,
            {
                assert(v@.skip(j as int).drop_first() == v@.skip(j + 1));
                assert(v@.subrange(start as int, j + 1) == v@.subrange(start as int, j as int)
                    + seq![v@[j as int]]);
                j = j + 1;
            }
            assert(leading_number(v@.skip(j as int)) == Seq::<char>::empty());
            if j > start {
                Some(crate::text::string_from_range(v, start, j))
            } else {
                None
            }
        },
        None => None,
    }
}

/// The text of the wait that a lower-case rate-limit message names: the
/// digits and dots right after the first "retry in ", or, if there are none,
/// after the first "retry after ".
pub fn retry_number_in_lowercase(lower: &str) -> (r: Option<String>)
    ensures
        match r {
            Some(t) => retry_hint(lower@) == Some(t@),
            None => retry_hint(lower@) is None,
        },
        r matches Some(t) ==> t@.len() > 0 && forall|i: int|
            0 <= i < t@.len() ==> is_number_char(#[trigger] t@[i]),
{
    let v = chars_of(lower);
    let r = match number_after_in(&v, "retry in ") {
        Some(run) => Some(run),
        None => number_after_in(&v, "retry after "),
    };
    proof {
        let l = lower@;
        match find_from(l, "retry in "@, 0) {
            Some(i) => lemma_leading_number(l.skip(i + "retry in "@.len())),
            None => {},
        }
        match find_from(l, "retry after "@, 0) {
            Some(i) => lemma_leading_number(l.skip(i + "retry after "@.len())),
            None => {},
        }
    }
    r
}

/// The text of the wait that a rate-limit message names: the message is
/// lower-cased, then read by `retry_number_in_lowercase`.
pub fn retry_number_in_message(message: &str) -> (r: Option<String>)
    ensures
        match r {
            Some(t) => retry_hint(str_lowercase(message@)) == Some(t@),
            None => retry_hint(str_lowercase(message@)) is None,
        },
        r matches Some(t) ==> t@.len() > 0 && forall|i: int|
            0 <= i < t@.len() ==> is_number_char(#[trigger] t@[i]),
        is_ascii_text(message@) ==> match r {
            Some(t) => retry_hint(ascii_lowercase(message@)) == Some(t@),
            None => retry_hint(ascii_lowercase(message@)) is None,
        },
{
    let lower = to_lowercase(message);
    retry_number_in_lowercase(lower.as_str())
}

/// The `Retry-After` header as a number of seconds, when it is one.
pub fn retry_after_secs(header: Option<&str>) -> (r: Option<u64>)
    ensures
        r == (match header {
            Some(h) => match crate::text::parse_unsigned(h@, u64::MAX as nat) {
                Some(n) => Some(n as u64),
                None => None::<u64>,
            },
            None => None::<u64>,
        }),
{
    match header {
        Some(h) => crate::text::parse_u64(h),
        None => None,
    }
}

// ---------------------------------------------------------------------------
// One call
// ---------------------------------------------------------------------------

/// The kinds of HTTP status that a call tells apart.
#[derive(Debug, Clone, Copy, PartialEq, Eq, Structural)]
pub enum StatusClass {
    /// 200: the body is the answer.
    Success,
    /// 429: the service asks to slow down.
    RateLimited,
    /// 500 to 599.
    ServerError,
    /// Any other status, 2xx other than 200 among them.
    Unexpected,
}

/// The kind of an HTTP status code.
pub fn classify_status(code: u16) -> (r: StatusClass)
    ensures
        code == 200 ==> r == StatusClass::Success,
        code == 429 ==> r == StatusClass::RateLimited,
        500 <= code <= 599 ==> r == StatusClass::ServerError,
        code != 200 && code != 429 && !(500 <= code <= 599) ==> r == StatusClass::Unexpected,
{
    if code == 200 {
        StatusClass::Success
    } else if code == 429 {
        StatusClass::RateLimited
    } else if 500 <= code && code <= 599 {
        StatusClass::ServerError
    } else {
        StatusClass::Unexpected
    }
}

/// The error for a 429 answer: the `Retry-After` seconds, and the message of
/// the error body when the body could be read.
pub fn rate_limited_error(retry_after: Option<u64>, body: Option<GeminiErrorEnvelope>) -> (r:
    GeminiError)
    ensures
        r matches GeminiError::RateLimited { retry_after_secs, message } && retry_after_secs
            == retry_after && match body {
            Some(b) => message matches Some(m) && m@ == b.error.message@,
            None => message is None,
        },
{
    let message = match body {
        Some(b) => Some(b.error.message),
        None => None,
    };
    GeminiError::RateLimited { retry_after_secs: retry_after, message }
}

/// The error for a 5xx answer: its body, or "unknown server error" when the
/// body could not be read.
pub fn server_error(body: Option<String>) -> (r: GeminiError)
    ensures
        r matches GeminiError::ServerError(m) && match body {
            Some(b) => m@ == b@,
            None => m@ == "unknown server error"@,
        },
{
    match body {
        Some(b) => GeminiError::ServerError(b),
        None => GeminiError::ServerError(owned("unknown server error")),
    }
}

/// The error for any other status: "Unexpected status <status>: <body>", with
/// an empty body when it could not be read.
pub fn unexpected_status_error(status: &str, body: Option<String>) -> (r: GeminiError)
    ensures
        r matches GeminiError::ServerError(m) && m@ == "Unexpected status "@ + status@ + ": "@
            + match body {
            Some(b) => b@,
            None => Seq::<char>::empty(),
        },
{
    let mut m = concat2("Unexpected status ", status);
    push_str(&mut m, ": ");
    match body {
        Some(b) => push_str(&mut m, b.as_str()),
        None => {},
    }
    GeminiError::ServerError(m)
}

/// The address of the `generateContent` method of `model`, with the key.
pub fn gemini_url(model: &str, api_key: &str) -> (r: String)
    ensures
        r@ == "https://generativelanguage.googleapis.com/v1beta/models/"@ + model@
            + ":generateContent?key="@ + api_key@,
{
    let mut r = concat2("https://generativelanguage.googleapis.com/v1beta/models/", model);
    push_str(&mut r, ":generateContent?key=");
    push_str(&mut r, api_key);
    r
}

/// The key as the environment holds it, without surrounding whitespace and
/// then without surrounding double quotes.
pub fn clean_api_key(raw: &str) -> (r: String)
    ensures
        r@ == without_quotes(trimmed(raw@)),
{
    let t = trim(raw);
    trim_quotes(t.as_str())
}

/// The system prompt and the user prompt as one text, a blank line between.
pub fn combine_prompts(system_prompt: &str, user_prompt: &str) -> (r: String)
    ensures
        r@ == system_prompt@ + "\n\n"@ + user_prompt@,
{
    let mut r = concat2(system_prompt, "\n\n");
    push_str(&mut r, user_prompt);
    r
}

fn block_none(category: &str) -> (r: SafetySetting)
    ensures
        r.category@ == category@,
        r.threshold@ == "BLOCK_NONE"@,
{
    SafetySetting { category: owned(category), threshold: owned("BLOCK_NONE") }
}

/// `r` is the request for one answer about the client named `client_name`:
/// one user message holding the two prompts, a blank line between, with the
/// name replaced by "The Querent" wherever it occurs (see `redacted`);
/// temperature 0, the token limit `max_output_tokens`, and every content
/// filter off.
pub open spec fn request_for(
    r: GeminiRequest,
    system_prompt: Seq<char>,
    user_prompt: Seq<char>,
    max_output_tokens: u32,
    client_name: Seq<char>,
) -> bool {
    &&& r.contents@.len() == 1
    &&& r.contents@[0].role@ == "user"@
    &&& r.contents@[0].parts@.len() == 1
    &&& r.contents@[0].parts@[0].text@ == redacted(
        system_prompt + "\n\n"@ + user_prompt,
        client_name,
        "The Querent"@,
    )
    &&& r.generation_config.max_output_tokens == max_output_tokens
    &&& r.generation_config.temperature_per_mille == 0
    &&& r.safety_settings@.len() == 4
    &&& r.safety_settings@[0].category@ == "HARM_CATEGORY_HARASSMENT"@
    &&& r.safety_settings@[1].category@ == "HARM_CATEGORY_HATE_SPEECH"@
    &&& r.safety_settings@[2].category@ == "HARM_CATEGORY_SEXUALLY_EXPLICIT"@
    &&& r.safety_settings@[3].category@ == "HARM_CATEGORY_DANGEROUS_CONTENT"@
    &&& forall|i: int|
        0 <= i < 4 ==> (#[trigger] r.safety_settings@[i]).threshold@ == "BLOCK_NONE"@
}

/// The request for one answer about a client (see `request_for`): the service
/// never sees a non-empty client name, and prompts without it are sent as
/// they are.
pub fn build_request(
    system_prompt: &str,
    user_prompt: &str,
    max_output_tokens: u32,
    client_name: &str,
) -> (r: GeminiRequest)
    ensures
        request_for(r, system_prompt@, user_prompt@, max_output_tokens, client_name@),
        client_name@.len() > 0 ==> free_of(r.contents@[0].parts@[0].text@, client_name@),
        free_of(system_prompt@ + "\n\n"@ + user_prompt@, client_name@)
            ==> r.contents@[0].parts@[0].text@ == system_prompt@ + "\n\n"@ + user_prompt@,
{
    let combined = combine_prompts(system_prompt, user_prompt);
    let text = redact(combined.as_str(), client_name, ANONYMOUS_NAME);
    let mut parts: Vec<GeminiPart> = Vec::new();
    parts.push(GeminiPart { text });
    let mut contents: Vec<GeminiContent> = Vec::new();
    contents.push(GeminiContent { role: owned("user"), parts });
    let mut safety_settings: Vec<SafetySetting> = Vec::new();
    safety_settings.push(block_none("HARM_CATEGORY_HARASSMENT"));
    safety_settings.push(block_none("HARM_CATEGORY_HATE_SPEECH"));
    safety_settings.push(block_none("HARM_CATEGORY_SEXUALLY_EXPLICIT"));
    safety_settings.push(block_none("HARM_CATEGORY_DANGEROUS_CONTENT"));
    GeminiRequest {
        contents,
        generation_config: GenerationConfig { max_output_tokens, temperature_per_mille: 0 },
        safety_settings,
    }
}

/// The text of the first part of the first candidate, if there is one.
pub open spec fn reply_text(resp: GeminiResponse) -> Option<Seq<char>> {
    match resp.candidates {
        Some(c) => if c@.len() > 0 && c@[0].content.parts@.len() > 0 {
            Some(c@[0].content.parts@[0].text@)
        } else {
            None
        },
        None => None,
    }
}

/// The answer's text: the first part of the first candidate, or a parse error
/// "Empty candidates" when there is none.
pub fn response_text(resp: GeminiResponse) -> (r: Result<String, GeminiError>)
    ensures
        match reply_text(resp) {
            Some(t) => r matches Ok(x) && x@ == t,
            None => r matches Err(GeminiError::ParseError(m)) && m@ == "Empty candidates"@,
        },
{
    match resp.candidates {
        Some(mut candidates) => {
            if candidates.len() > 0 {
                let first = candidates.remove(0);
                let mut parts = first.content.parts;
                if parts.len() > 0 {
                    let part = parts.remove(0);
                    return Ok(part.text);
                }
            }
        },
        None => {},
    }
    Err(GeminiError::ParseError(owned("Empty candidates")))
}

/// The token counts to report: prompt tokens, answer tokens (0 where absent),
/// and the total, or, where absent, the sum of the two.
pub fn usage_totals(usage: &GeminiUsageMetadata) -> (r: (u64, u64, u64))
    requires
        usage.prompt_token_count.unwrap_or(0) + usage.candidates_token_count.unwrap_or(0)
            <= u64::MAX,
    ensures
        r.0 == usage.prompt_token_count.unwrap_or(0),
        r.1 == usage.candidates_token_count.unwrap_or(0),
        r.2 == usage.total_token_count.unwrap_or((r.0 + r.1) as u64),
{
    let input = match usage.prompt_token_count {
        Some(n) => n,
        None => 0,
    };
    let output = match usage.candidates_token_count {
        Some(n) => n,
        None => 0,
    };
    let sum = input + output;
    let total = match usage.total_token_count {
        Some(n) => n,
        None => sum,
    };
    (input, output, total)
}

// ---------------------------------------------------------------------------
// The target date
// ---------------------------------------------------------------------------

/// The model that reads the target date out of a question.
pub const TARGET_DATE_MODEL: &'static str = "gemini-3.1-flash-lite";

/// The token limit of the target-date answer.
pub const TARGET_DATE_MAX_TOKENS: u32 = 50;

/// The system prompt that asks for the target date.
pub const TARGET_DATE_SYSTEM_PROMPT: &'static str = "[PROPRIETARY AGENT 1 PROMPT REDACTED FOR PUBLIC REPOSITORY] Extract a target date in YYYY-MM-DD format.";

/// The user prompt that asks for the target date of `question`, with the
/// client's name replaced by "The Querent" wherever it occurs.
pub open spec fn target_date_prompt_text(
    current_date: Seq<char>,
    question: Seq<char>,
    client_name: Seq<char>,
) -> Seq<char> {
    redacted("Current Date: "@ + current_date + "\nQuestion: "@ + question, client_name, "The Querent"@)
}

/// The user prompt that asks for the target date of `question` (see
/// `target_date_prompt_text`): no occurrence of a non-empty client name is
/// left in it.
pub fn target_date_prompt(current_date: &str, question: &str, client_name: &str) -> (r: String)
    ensures
        r@ == target_date_prompt_text(current_date@, question@, client_name@),
        client_name@.len() > 0 ==> free_of(r@, client_name@),
        free_of("Current Date: "@ + current_date@ + "\nQuestion: "@ + question@, client_name@)
            ==> r@ == "Current Date: "@ + current_date@ + "\nQuestion: "@ + question@,
{
    let mut prompt = concat2("Current Date: ", current_date);
    push_str(&mut prompt, "\nQuestion: ");
    push_str(&mut prompt, question);
    redact(prompt.as_str(), client_name, ANONYMOUS_NAME)
}

/// The date one year after `current` (a `YYYY-MM-DD` text), or 2030-01-01 where
/// `current` does not parse or that day does not exist a year later.
pub open spec fn fallback_date_text(current: Seq<char>) -> Seq<char> {
    match chrono_parse_date(current, "%Y-%m-%d"@) {
        Some(t) => if is_valid_date(t.0 + 1, t.1 as int, t.2 as int) {
            iso_date_text(t.0 + 1, t.1 as nat, t.2 as nat)
        } else {
            "2030-01-01"@
        },
        None => "2030-01-01"@,
    }
}

/// The fallback date for a current date as it parsed: the same day a year
/// later when that day exists, else 2030-01-01.
pub open spec fn fallback_from_parsed_text(parsed: Option<CalendarDate>) -> Seq<char> {
    match parsed {
        Some(d) => if is_valid_date(d.year + 1, d.month as int, d.day as int) {
            iso_date_text(d.year + 1, d.month as nat, d.day as nat)
        } else {
            "2030-01-01"@
        },
        None => "2030-01-01"@,
    }
}

/// The fallback date for the current date as it parsed (`None` where it did
/// not): the same day a year later, or 2030-01-01.
pub fn fallback_from_parsed(parsed: Option<CalendarDate>) -> (r: String)
    requires
        parsed matches Some(d) ==> d.valid(),
    ensures
        r@ == fallback_from_parsed_text(parsed),
{
    match parsed {
        Some(d) => {
            match date_with_year(d, d.year + 1) {
                Some(next_year) => {
                    return format_date(next_year, "%Y-%m-%d");
                },
                None => {},
            }
        },
        None => {},
    }
    owned("2030-01-01")
}

/// The target date to use when the answer gives none: a year after the
/// current date, or 2030-01-01.
pub fn fallback_date(current_date: &str) -> (r: String)
    ensures
        r@ == fallback_date_text(current_date@),
{
    let parsed = parse_date(current_date, "%Y-%m-%d");
    fallback_from_parsed(parsed)
}

/// Whether `c` occurs in `s`.
pub fn contains_char(s: &str, c: char) -> (r: bool)
    ensures
        r == s@.contains(c),
{
    let v = chars_of(s);
    let mut i: usize = 0;
    while i < v.len()
        invariant
            v@ == s@,
            i <= v.len(),
            forall|j: int| 0 <= j < i ==> v@[j] != c,
        decreases v.len() - i,
    {
        if v[i] == c {
            return true;
        }
        i = i + 1;
    }
    false
}

/// The first ten bytes of the trimmed answer, when it has ten bytes at least
/// and a dash.
pub open spec fn reply_date_text(t: Seq<char>) -> Option<Seq<char>> {
    let tt = trimmed(t);
    let b = encode_utf8(tt);
    if b.len() >= 10 && tt.contains('-') {
        Some(decode_utf8(b.subrange(0, 10)))
    } else {
        None
    }
}

/// Cutting the trimmed answer after ten bytes does not split a character.
pub open spec fn reply_cut_ok(t: Seq<char>) -> bool {
    let tt = trimmed(t);
    let b = encode_utf8(tt);
    b.len() >= 10 && tt.contains('-') ==> is_char_boundary(b, 10)
}

/// The view of an optional text.
pub open spec fn opt_view(o: Option<&str>) -> Option<Seq<char>> {
    match o {
        Some(s) => Some(s@),
        None => None,
    }
}

/// The target date: the answer's first ten bytes, or the fallback date when
/// there is no answer or it is too short or has no dash.
pub open spec fn target_date_text(reply: Option<Seq<char>>, current: Seq<char>) -> Seq<char> {
    match reply {
        Some(t) => match reply_date_text(t) {
            Some(x) => x,
            None => fallback_date_text(current),
        },
        None => fallback_date_text(current),
    }
}

/// The target date taken from an answer is its beginning: where the trimmed
/// answer is at least ten bytes long and holds a dash (and the tenth byte ends
/// a character), the date is the part of the trimmed answer that fills its
/// first ten bytes, so an answer of exactly ten bytes, such as `2025-01-15`,
/// is taken whole. A shorter answer, or one without a dash, gives the
/// fallback date.
pub proof fn lemma_target_date_is_head_of_answer(t: Seq<char>, current: Seq<char>)
    requires
        reply_cut_ok(t),
    ensures
        encode_utf8(trimmed(t)).len() >= 10 && trimmed(t).contains('-') ==> (target_date_text(
            Some(t),
            current,
        ).is_prefix_of(trimmed(t)) && encode_utf8(target_date_text(Some(t), current)).len() == 10),
        encode_utf8(trimmed(t)).len() == 10 && trimmed(t).contains('-') ==> target_date_text(
            Some(t),
            current,
        ) == trimmed(t),
        !(encode_utf8(trimmed(t)).len() >= 10 && trimmed(t).contains('-')) ==> target_date_text(
            Some(t),
            current,
        ) == fallback_date_text(current),
{
    let tt = trimmed(t);
    let b = encode_utf8(tt);
    if b.len() >= 10 && tt.contains('-') {
        vstd::utf8::encode_utf8_valid_utf8(tt);
        vstd::utf8::encode_utf8_decode_utf8(tt);
        vstd::utf8::decode_utf8_split(b, 10);
        vstd::utf8::valid_utf8_split(b, 10);
        let head = b.subrange(0, 10);
        let r = decode_utf8(head);
        vstd::utf8::decode_utf8_encode_utf8(head);
        assert(tt == r + decode_utf8(b.subrange(10, b.len() as int)));
        assert(r.is_prefix_of(tt)) by {
            assert(tt.subrange(0, r.len() as int) =~= r);
        }
        if b.len() == 10 {
            assert(head =~= b);
        }
    }
}

/// The target date from the model's answer (`None` when the call failed).
pub fn choose_target_date(reply: Option<&str>, current_date: &str) -> (r: String)
    requires
        reply matches Some(t) ==> reply_cut_ok(t@),
    ensures
        r@ == target_date_text(opt_view(reply), current_date@),
        reply matches Some(t) ==> (encode_utf8(trimmed(t@)).len() >= 10 && trimmed(t@).contains('-')
            ==> r@.is_prefix_of(trimmed(t@)) && encode_utf8(r@).len() == 10),
        reply matches Some(t) ==> (encode_utf8(trimmed(t@)).len() == 10 && trimmed(t@).contains('-')
            ==> r@ == trimmed(t@)),
{
    proof {
        if let Some(t) = reply {
            lemma_target_date_is_head_of_answer(t@, current_date@);
        }
    }
    match reply {
        Some(text) => {
            let t = trim(text);
            let ts = t.as_str();
            let byte_len = ts.as_bytes().len();
            if byte_len >= 10 && contains_char(ts, '-') {
                let (head, _rest) = ts.split_at(10);
                proof {
                    vstd::utf8::encode_utf8_decode_utf8(head@);
                }
                return head.to_owned();
            }
        },
        None => {},
    }
    fallback_date(current_date)
}

/// `choose_target_date`, or `None` where the answer's tenth byte ends inside
/// a character, so that the cut cannot be made.
pub fn try_choose_target_date(reply: Option<&str>, current_date: &str) -> (r: Option<String>)
    ensures
        match r {
            Some(x) => (reply matches Some(t) ==> reply_cut_ok(t@)) && x@ == target_date_text(
                opt_view(reply),
                current_date@,
            ),
            None => reply matches Some(t) && !reply_cut_ok(t@),
        },
{
    match reply {
        Some(text) => {
            let t = trim(text);
            let ts = t.as_str();
            proof {
                vstd::utf8::encode_utf8_valid_utf8(ts@);
            }
            let byte_len = ts.as_bytes().len();
            if byte_len >= 10 && contains_char(ts, '-') && !ts.is_char_boundary(10) {
                return None;
            }
        },
        None => {},
    }
    Some(choose_target_date(reply, current_date))
}

} // verus!
