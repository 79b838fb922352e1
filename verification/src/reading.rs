use vstd::prelude::*;

use crate::dates::{
    add_days, chrono_add_days, chrono_parse_date, chrono_parse_time, date_of, parse_date,
    parse_time, CalendarDate, ClockTime, LocalDateTime,
};
use crate::math::HouseSystem;
use crate::text::{
    ascii_lower,
    chars_of, concat2, decimal_text, eq_text, owned, parse_i64, parse_i64_text, parse_u32,
    parse_unsigned, push_decimal, push_str, redact, redacted, replace_all, replaced, trim, trimmed,
    matches_at, free_of, share_no_char, lemma_replaced_leaves_no_match,
};

verus! {

/// The status of a client who may have readings.
pub const ACTIVE_STATUS: &'static str = "Active";

/// The status of a client who is refused readings.
pub const REFUSED_STATUS: &'static str = "Refused";

/// The reading length used when none is given or it does not parse.
pub const DEFAULT_TARGET_WORDS: u32 = 500;

/// The model that writes the reading.
pub const READING_MODEL: &'static str = "gemini-3.1-flash-lite";

/// The token limit of the reading.
pub const READING_MAX_TOKENS: u32 = 2000;

/// What stands in the prompt in place of the client's name.
pub const ANONYMOUS_NAME: &'static str = "The Querent";

/// Whether a client with this status is refused readings.
pub fn is_refused(status: &str) -> (r: bool)
    ensures
        r == (status@ == "Refused"@),
{
    eq_text(status, REFUSED_STATUS)
}

/// `a` and `b` are the same text up to the case of ASCII letters.
pub open spec fn same_ignoring_ascii_case(a: Seq<char>, b: Seq<char>) -> bool {
    a.len() == b.len() && forall|i: int| 0 <= i < a.len() ==> ascii_lower(#[trigger] a[i]) == ascii_lower(b[i])
}

fn lower_ascii(c: char) -> (r: char)
    ensures
        r == ascii_lower(c),
{
    if 'A' <= c && c <= 'Z' {
        let u: u32 = (c as u32) + 32;
        assert(u < 128);
        let b: u8 = u as u8;
        b as char
    } else {
        c
    }
}

/// `str::eq_ignore_ascii_case`.
pub fn eq_ignore_ascii_case(a: &str, b: &str) -> (r: bool)
    ensures
        r == same_ignoring_ascii_case(a@, b@),
{
    let va = chars_of(a);
    let vb = chars_of(b);
    if va.len() != vb.len() {
        return false;
    }
    let mut i: usize = 0;
    while i < va.len()
        invariant
            va@ == a@,
            vb@ == b@,
            va.len() == vb.len(),
            i <= va.len(),
            forall|j: int| 0 <= j < i ==> ascii_lower(#[trigger] va@[j]) == ascii_lower(vb@[j]),
        decreases va.len() - i,
    {
        if lower_ascii(va[i]) != lower_ascii(vb[i]) {
            return false;
        }
        i = i + 1;
    }
    true
}

/// Whether the answer asks to leave the fast track: "cancel", in any case of
/// its letters, with whitespace around it or not.
pub fn is_cancel(input: &str) -> (r: bool)
    ensures
        r == same_ignoring_ascii_case(trimmed(input@), "cancel"@),
{
    let t = trim(input);
    eq_ignore_ascii_case(t.as_str(), "cancel")
}

/// A client's id typed in, with whitespace around it or not.
pub fn parse_client_id(input: &str) -> (r: Option<i64>)
    ensures
        r == (match parse_i64_text(trimmed(input@)) {
            Some(n) => Some(n as i64),
            None => None::<i64>,
        }),
{
    let t = trim(input);
    parse_i64(t.as_str())
}

/// The reading length typed in, or 500 when it is not a `u32`.
pub fn parse_word_count(input: &str) -> (r: u32)
    ensures
        r == (match parse_unsigned(input@, u32::MAX as nat) {
            Some(n) => n as u32,
            None => DEFAULT_TARGET_WORDS,
        }),
{
    match parse_u32(input) {
        Some(n) => n,
        None => DEFAULT_TARGET_WORDS,
    }
}

/// The house system chosen in the menu: the first entry is Placidus, every
/// other whole sign.
pub fn house_system_from_selection(selection: usize) -> (r: HouseSystem)
    ensures
        selection == 0 ==> r == HouseSystem::Placidus,
        selection != 0 ==> r == HouseSystem::WholeSign,
{
    if selection == 0 {
        HouseSystem::Placidus
    } else {
        HouseSystem::WholeSign
    }
}

/// A client as the journal lists it for the fast track.
#[derive(Debug, Clone)]
pub struct ClientRow {
    pub id: i64,
    pub name: String,
    pub dob: Option<String>,
    pub time: Option<String>,
    pub city: String,
    pub status: String,
}

/// A client whose profile is complete enough for a reading.
#[derive(Debug, Clone)]
pub struct ReadyClient {
    pub name: String,
    pub dob: String,
    pub time: String,
    pub city: String,
}

/// What the fast track finds for a chosen id.
#[derive(Debug)]
pub enum FastTrack {
    NotFound,
    Refused,
    Incomplete,
    Ready(ReadyClient),
}

/// The index of the first row with the given id.
pub open spec fn first_with_id(rows: Seq<ClientRow>, id: i64) -> Option<int>
    decreases rows.len(),
{
    if rows.len() == 0 {
        None
    } else if rows[0].id == id {
        Some(0)
    } else {
        match first_with_id(rows.drop_first(), id) {
            Some(i) => Some(i + 1),
            None => None,
        }
    }
}

pub open spec fn text_or_empty(o: Option<String>) -> Seq<char> {
    match o {
        Some(s) => s@,
        None => Seq::empty(),
    }
}

/// What the fast track decides for the row with the chosen id: not found; a
/// refused client; a profile without birth date or time; or the client's
/// details.
pub open spec fn fast_track_decision(rows: Seq<ClientRow>, id: i64, r: FastTrack) -> bool {
    match first_with_id(rows, id) {
        None => r is NotFound,
        Some(i) => {
            let row = rows[i];
            if row.status@ == "Refused"@ {
                r is Refused
            } else if text_or_empty(row.dob).len() == 0 || text_or_empty(row.time).len() == 0 {
                r is Incomplete
            } else {
                r matches FastTrack::Ready(c) && c.name@ == row.name@ && c.dob@ == text_or_empty(
                    row.dob,
                ) && c.time@ == text_or_empty(row.time) && c.city@ == row.city@
            }
        },
    }
}

fn take_or_empty(o: Option<String>) -> (r: String)
    ensures
        r@ == text_or_empty(o),
{
    match o {
        Some(s) => s,
        None => String::new(),
    }
}

/// The position of the first row with the given id.
fn position_of_id(rows: &Vec<ClientRow>, id: i64) -> (r: Option<usize>)
    ensures
        match r {
            Some(i) => first_with_id(rows@, id) == Some(i as int) && i < rows@.len(),
            None => first_with_id(rows@, id) is None,
        },
{
    let mut i: usize = 0;
    assert(rows@.skip(0) == rows@);
    while i < rows.len()
        invariant
            i <= rows@.len(),
            first_with_id(rows@, id) == (match first_with_id(rows@.skip(i as int), id) {
                Some(k) => Some(k + i),
                None => None,
            }),
        decreases rows.len() - i,
    {
        assert(rows@.skip(i as int)[0] == rows@[i as int]);
        if rows[i].id == id {
            return Some(i);
        }
        assert(rows@.skip(i as int).drop_first() == rows@.skip(i + 1));
        i = i + 1;
    }
    None
}

/// How the fast track settles which client is meant, from the rows that the
/// name search found.
#[derive(Debug, Clone, Copy, PartialEq, Eq, Structural)]
pub enum MatchPick {
    /// No client matched.
    NoMatch,
    /// Exactly one client matched: this one, without asking.
    Only(i64),
    /// Several matched: they are listed and the id is asked for.
    Ask,
}

/// Which client the fast track takes: none when nothing matched, the only
/// match without asking, or else the one whose id is asked for.
pub fn pick_match(rows: &Vec<ClientRow>) -> (r: MatchPick)
    ensures
        rows@.len() == 0 ==> r == MatchPick::NoMatch,
        rows@.len() == 1 ==> r == MatchPick::Only(rows@[0].id),
        rows@.len() > 1 ==> r == MatchPick::Ask,
{
    if rows.len() == 0 {
        MatchPick::NoMatch
    } else if rows.len() == 1 {
        MatchPick::Only(rows[0].id)
    } else {
        MatchPick::Ask
    }
}

/// The fast-track decision for the chosen id (see `fast_track_decision`).
pub fn fast_track_choice(rows: Vec<ClientRow>, target_id: i64) -> (r: FastTrack)
    ensures
        fast_track_decision(rows@, target_id, r),
{
    match position_of_id(&rows, target_id) {
        None => FastTrack::NotFound,
        Some(i) => {
            let mut rows = rows;
            let row = rows.remove(i);
            if is_refused(row.status.as_str()) {
                return FastTrack::Refused;
            }
            let dob = take_or_empty(row.dob);
            let time = take_or_empty(row.time);
            if dob.as_str().is_empty() || time.as_str().is_empty() {
                return FastTrack::Incomplete;
            }
            FastTrack::Ready(ReadyClient { name: row.name, dob, time, city: row.city })
        },
    }
}

/// A reading to run: who, when and where born, and the question.
#[derive(Debug, Clone)]
pub struct ReadingRequest {
    pub name: String,
    pub date: String,
    pub time: String,
    pub city: String,
    pub question: String,
    pub target_words: u32,
}

/// The reading that the command line asks for: name, birth date, birth time,
/// city and question as the first five arguments after the program's name,
/// and the reading length, 500 by default, as the sixth.
pub fn reading_from_args(args: &Vec<String>) -> (r: Option<ReadingRequest>)
    ensures
        args@.len() < 6 ==> r is None,
        args@.len() >= 6 ==> (r matches Some(q) && {
            &&& q.name@ == args@[1]@
            &&& q.date@ == args@[2]@
            &&& q.time@ == args@[3]@
            &&& q.city@ == args@[4]@
            &&& q.question@ == args@[5]@
            &&& q.target_words == if args@.len() >= 7 {
                match parse_unsigned(args@[6]@, u32::MAX as nat) {
                    Some(n) => n as u32,
                    None => DEFAULT_TARGET_WORDS,
                }
            } else {
                DEFAULT_TARGET_WORDS
            }
        }),
{
    if args.len() < 6 {
        return None;
    }
    let target_words = if args.len() >= 7 {
        parse_word_count(args[6].as_str())
    } else {
        DEFAULT_TARGET_WORDS
    };
    Some(
        ReadingRequest {
            name: args[1].clone(),
            date: args[2].clone(),
            time: args[3].clone(),
            city: args[4].clone(),
            question: args[5].clone(),
            target_words,
        },
    )
}

/// The birth moment from the parsed date and the parsed time (the 12-hour
/// form, else the 24-hour form), or the message for what did not parse.
pub fn birth_moment_from(
    date: Option<CalendarDate>,
    time_12h: Option<ClockTime>,
    time_24h: Option<ClockTime>,
) -> (r: Result<LocalDateTime, String>)
    ensures
        match date {
            None => r matches Err(m) && m@ == "Invalid Date Format. Please use DD/MM/YYYY"@,
            Some(d) => match (time_12h, time_24h) {
                (Some(t), _) => r == Ok::<LocalDateTime, String>(LocalDateTime { date: d, time: t }),
                (None, Some(t)) => r == Ok::<LocalDateTime, String>(
                    LocalDateTime { date: d, time: t },
                ),
                (None, None) => r matches Err(m) && m@
                    == "Invalid Time Format. Please use HH:MM AM/PM or HH:MM"@,
            },
        },
{
    let date = match date {
        Some(d) => d,
        None => {
            return Err(owned("Invalid Date Format. Please use DD/MM/YYYY"));
        },
    };
    let time = match time_12h {
        Some(t) => t,
        None => match time_24h {
            Some(t) => t,
            None => {
                return Err(owned("Invalid Time Format. Please use HH:MM AM/PM or HH:MM"));
            },
        },
    };
    Ok(LocalDateTime { date, time })
}

/// The birth moment from the texts typed in: the date as `DD/MM/YYYY`, the
/// time as `HH:MM AM/PM` or else `HH:MM`; or the message for the text that
/// does not parse.
pub open spec fn birth_moment_text(date_str: Seq<char>, time_str: Seq<char>) -> Result<
    LocalDateTime,
    Seq<char>,
> {
    match chrono_parse_date(date_str, "%d/%m/%Y"@) {
        None => Err("Invalid Date Format. Please use DD/MM/YYYY"@),
        Some(d) => {
            let t = match chrono_parse_time(time_str, "%I:%M %p"@) {
                Some(t) => Some(t),
                None => chrono_parse_time(time_str, "%H:%M"@),
            };
            match t {
                None => Err("Invalid Time Format. Please use HH:MM AM/PM or HH:MM"@),
                Some(t) => Ok(
                    LocalDateTime {
                        date: date_of(d),
                        time: ClockTime { hour: t.0, minute: t.1, second: t.2 },
                    },
                ),
            }
        },
    }
}

/// The birth date is read as day, month and year (`DD/MM/YYYY`) and in no
/// other order: a moment comes out only when chrono reads the date text with
/// `%d/%m/%Y`, and its date is that reading; a date text that does not read
/// so gives the date error, whatever the time. The time is the reading of the
/// time text as `HH:MM AM/PM` where that reads, else as `HH:MM`.
pub proof fn lemma_birth_date_is_day_month_year(date_str: Seq<char>, time_str: Seq<char>)
    ensures
        birth_moment_text(date_str, time_str) matches Ok(m) ==> (chrono_parse_date(
            date_str,
            "%d/%m/%Y"@,
        ) matches Some(d) && m.date == date_of(d)),
        chrono_parse_date(date_str, "%d/%m/%Y"@) is None ==> birth_moment_text(date_str, time_str)
            == Err::<LocalDateTime, Seq<char>>("Invalid Date Format. Please use DD/MM/YYYY"@),
        birth_moment_text(date_str, time_str) matches Ok(m) ==> (chrono_parse_time(
            time_str,
            "%I:%M %p"@,
        ) matches Some(t) ==> m.time == ClockTime { hour: t.0, minute: t.1, second: t.2 }),
        chrono_parse_date(date_str, "%d/%m/%Y"@) is Some ==> (chrono_parse_time(
            time_str,
            "%I:%M %p"@,
        ) is Some ==> birth_moment_text(date_str, time_str) is Ok),
{
}

/// The birth moment from the texts typed in (see `birth_moment_text`): the
/// date is chrono's reading of the date text as `%d/%m/%Y`.
pub fn parse_birth_moment(date_str: &str, time_str: &str) -> (r: Result<LocalDateTime, String>)
    ensures
        match birth_moment_text(date_str@, time_str@) {
            Ok(m) => r == Ok::<LocalDateTime, String>(m),
            Err(msg) => r matches Err(m) && m@ == msg,
        },
        r matches Ok(m) ==> (chrono_parse_date(date_str@, "%d/%m/%Y"@) matches Some(d) && m.date
            == date_of(d)),
        chrono_parse_date(date_str@, "%d/%m/%Y"@) is None ==> r is Err,
        r matches Ok(m) ==> m.valid(),
{
    let date = parse_date(date_str, "%d/%m/%Y");
    let time_12h = parse_time(time_str, "%I:%M %p");
    let time_24h = match time_12h {
        Some(_) => None,
        None => parse_time(time_str, "%H:%M"),
    };
    birth_moment_from(date, time_12h, time_24h)
}

/// The target date from the extracted text as it parsed, else the fallback.
pub fn target_date_or(parsed: Option<CalendarDate>, fallback: Option<CalendarDate>) -> (r: Option<
    CalendarDate,
>)
    ensures
        r == (match parsed {
            Some(d) => Some(d),
            None => fallback,
        }),
{
    match parsed {
        Some(d) => Some(d),
        None => fallback,
    }
}

/// The target date: the extracted text read as `YYYY-MM-DD`, or else 365 days
/// after `today`; `None` only where neither exists.
pub open spec fn target_date_of(extracted: Seq<char>, today: CalendarDate) -> Option<CalendarDate> {
    match chrono_parse_date(extracted, "%Y-%m-%d"@) {
        Some(t) => Some(date_of(t)),
        None => match chrono_add_days(today.year, today.month, today.day, 365) {
            Some(t) => Some(date_of(t)),
            None => None::<CalendarDate>,
        },
    }
}

/// The target date (see `target_date_of`).
pub fn resolve_target_date(extracted: &str, today: CalendarDate) -> (r: Option<CalendarDate>)
    requires
        today.valid(),
    ensures
        r == target_date_of(extracted@, today),
        r matches Some(d) ==> d.valid(),
{
    let parsed = parse_date(extracted, "%Y-%m-%d");
    let fallback = match parsed {
        Some(_) => None,
        None => add_days(today, 365),
    };
    target_date_or(parsed, fallback)
}

/// The birth data kept in the journal.
pub open spec fn birth_data_text(date: Seq<char>, time: Seq<char>, offset: Seq<char>) -> Seq<char> {
    "Date: "@ + date + ", Time: "@ + time + ", UTC Offset: "@ + offset
}

/// The birth data kept in the journal (see `birth_data_text`).
pub fn birth_data_summary(date_str: &str, time_str: &str, offset_text: &str) -> (r: String)
    ensures
        r@ == birth_data_text(date_str@, time_str@, offset_text@),
{
    let mut r = concat2("Date: ", date_str);
    push_str(&mut r, ", Time: ");
    push_str(&mut r, time_str);
    push_str(&mut r, ", UTC Offset: ");
    push_str(&mut r, offset_text);
    r
}

/// The chart summary followed by the dasha timeline.
pub open spec fn chart_with_timeline(chart_summary: Seq<char>, dasha_timeline: Seq<char>) -> Seq<
    char,
> {
    chart_summary
        + "\n\n--- ACTIVE VIMSHOTTARI DASHA TIMELINE (From Today to Target Date) ---\n"@
        + dasha_timeline + "\n"@
}

/// The chart summary followed by the dasha timeline (see `chart_with_timeline`).
pub fn compose_chart_summary(chart_summary: &str, dasha_timeline: &str) -> (r: String)
    ensures
        r@ == chart_with_timeline(chart_summary@, dasha_timeline@),
{
    let mut r = concat2(
        chart_summary,
        "\n\n--- ACTIVE VIMSHOTTARI DASHA TIMELINE (From Today to Target Date) ---\n",
    );
    push_str(&mut r, dasha_timeline);
    push_str(&mut r, "\n");
    r
}

/// The system prompt of the reading, with today's date and the length asked for.
pub open spec fn system_prompt_text(current_date: Seq<char>, target_words: u32) -> Seq<char> {
    "[PROPRIETARY ASTROLOGICAL MASTER PROMPT REDACTED FOR PUBLIC REPOSITORY]\nToday's date: "@
        + current_date + ". Target word count: "@ + decimal_text(target_words as nat) + "."@
}

/// The system prompt of the reading (see `system_prompt_text`).
pub fn reading_system_prompt(current_date: &str, target_words: u32) -> (r: String)
    ensures
        r@ == system_prompt_text(current_date@, target_words),
{
    let mut r = concat2(
        "[PROPRIETARY ASTROLOGICAL MASTER PROMPT REDACTED FOR PUBLIC REPOSITORY]\nToday's date: ",
        current_date,
    );
    push_str(&mut r, ". Target word count: ");
    push_decimal(&mut r, target_words as u64);
    push_str(&mut r, ".");
    r
}

/// The user prompt of the reading, before the name is taken out.
pub open spec fn user_prompt_text(
    name: Seq<char>,
    question: Seq<char>,
    city: Seq<char>,
    lat_text: Seq<char>,
    lon_text: Seq<char>,
    offset_text: Seq<char>,
    chart: Seq<char>,
) -> Seq<char> {
    "Querent: "@ + name + "\nQuestion: "@ + question + "\nResolution: City: "@ + city + ", Lat: "@
        + lat_text + ", Lon: "@ + lon_text + ", Offset: "@ + offset_text + "\n\nChart Data:\n"@
        + chart
}

/// The user prompt of the reading, before the name is taken out (see
/// `user_prompt_text`).
pub fn reading_user_prompt(
    name: &str,
    question: &str,
    city: &str,
    lat_text: &str,
    lon_text: &str,
    offset_text: &str,
    chart: &str,
) -> (r: String)
    ensures
        r@ == user_prompt_text(name@, question@, city@, lat_text@, lon_text@, offset_text@, chart@),
{
    let mut r = concat2("Querent: ", name);
    push_str(&mut r, "\nQuestion: ");
    push_str(&mut r, question);
    push_str(&mut r, "\nResolution: City: ");
    push_str(&mut r, city);
    push_str(&mut r, ", Lat: ");
    push_str(&mut r, lat_text);
    push_str(&mut r, ", Lon: ");
    push_str(&mut r, lon_text);
    push_str(&mut r, ", Offset: ");
    push_str(&mut r, offset_text);
    push_str(&mut r, "\n\nChart Data:\n");
    push_str(&mut r, chart);
    r
}

/// The prompt as the service sees it: the yoga alerts appended, then the
/// client's name taken out (`redacted`); an empty name is replaced as
/// `str::replace` does it, before the alerts are appended.
pub open spec fn anonymized_text(user_prompt: Seq<char>, name: Seq<char>, alerts: Seq<char>) -> Seq<
    char,
> {
    if name.len() == 0 {
        replaced(user_prompt, name, "The Querent"@) + alerts
    } else {
        redacted(user_prompt + alerts, name, "The Querent"@)
    }
}

/// The prompt as the service sees it (see `anonymized_text`): the yoga alerts appended, then every
/// occurrence of the client's name replaced by "The Querent", so that no
/// occurrence of the name is left anywhere in it (see `redacted`); a prompt
/// without the name is sent as it is. An empty name is replaced as
/// `str::replace` does it, before the alerts are appended.
pub fn anonymize_prompt(user_prompt: &str, name: &str, alerts: &str) -> (r: String)
    ensures
        r@ == anonymized_text(user_prompt@, name@, alerts@),
        name@.len() > 0 ==> free_of(r@, name@),
        free_of(user_prompt@ + alerts@, name@) ==> r@ == user_prompt@ + alerts@,
        name@.len() > 0 && share_no_char(name@, "The Querent"@) ==> r@ == replaced(
            user_prompt@ + alerts@,
            name@,
            "The Querent"@,
        ),
{
    if name.is_empty() {
        assert(matches_at(user_prompt@ + alerts@, name@, 0)) by {
            assert((user_prompt@ + alerts@).subrange(0, 0) =~= name@);
        }
        let mut r = replace_all(user_prompt, name, ANONYMOUS_NAME);
        push_str(&mut r, alerts);
        return r;
    }
    let whole = concat2(user_prompt, alerts);
    proof {
        reveal_strlit("The Querent");
    }
    redact(whole.as_str(), name, ANONYMOUS_NAME)
}

/// The reading as a web page.
pub open spec fn page_text(name: Seq<char>, reading: Seq<char>) -> Seq<char> {
    "<!DOCTYPE html>\n<html>\n<head>\n<meta charset=\"UTF-8\">\n<title>Vedic Reading - "@
        + name
        + "</title>\n<style>\nbody { font-family: system-ui, sans-serif; max-width: 800px; margin: 40px auto; line-height: 1.8; color: #333; padding: 20px; background-color: #fcfcfc; border-radius: 8px; box-shadow: 0 4px 12px rgba(0,0,0,0.1); }\n</style>\n</head>\n<body>\n<h1>Vedic Reading for "@
        + name + "</h1>\n<pre style=\"white-space: pre-wrap; font-family: inherit;\">"@
        + reading + "</pre>\n</body>\n</html>"@
}

/// The reading as a web page (see `page_text`).
pub fn reading_html(name: &str, reading: &str) -> (r: String)
    ensures
        r@ == page_text(name@, reading@),
{
    let mut r = concat2(
        "<!DOCTYPE html>\n<html>\n<head>\n<meta charset=\"UTF-8\">\n<title>Vedic Reading - ",
        name,
    );
    push_str(
        &mut r,
        "</title>\n<style>\nbody { font-family: system-ui, sans-serif; max-width: 800px; margin: 40px auto; line-height: 1.8; color: #333; padding: 20px; background-color: #fcfcfc; border-radius: 8px; box-shadow: 0 4px 12px rgba(0,0,0,0.1); }\n</style>\n</head>\n<body>\n<h1>Vedic Reading for ",
    );
    push_str(&mut r, name);
    push_str(&mut r, "</h1>\n<pre style=\"white-space: pre-wrap; font-family: inherit;\">");
    push_str(&mut r, reading);
    push_str(&mut r, "</pre>\n</body>\n</html>");
    r
}

/// The file name of a reading: the name with its spaces made underscores, the
/// time stamp, and `.html`.
pub open spec fn file_name_text(name: Seq<char>, stamp: Seq<char>) -> Seq<char> {
    replaced(name, " "@, "_"@) + "_"@ + stamp + ".html"@
}

/// The file name of a reading (see `file_name_text`).
pub fn reading_file_name(name: &str, stamp: &str) -> (r: String)
    ensures
        r@ == file_name_text(name@, stamp@),
{
    let mut r = replace_all(name, " ", "_");
    push_str(&mut r, "_");
    push_str(&mut r, stamp);
    push_str(&mut r, ".html");
    r
}

/// The `LIKE` pattern that finds names containing `term`.
pub fn name_search_pattern(term: &str) -> (r: String)
    ensures
        r@ == "%"@ + term@ + "%"@,
{
    let mut r = concat2("%", term);
    push_str(&mut r, "%");
    r
}

/// A field of the journal, or "N/A" where it is empty.
pub fn display_or_na(value: Option<String>) -> (r: String)
    ensures
        r@ == (match value {
            Some(v) => v@,
            None => "N/A"@,
        }),
{
    match value {
        Some(v) => v,
        None => owned("N/A"),
    }
}

/// `s` followed by spaces up to `width` characters, as `{:<width}` writes it.
pub open spec fn padded(s: Seq<char>, width: nat) -> Seq<char> {
    if s.len() >= width {
        s
    } else {
        s + Seq::new((width - s.len()) as nat, |_i: int| ' ')
    }
}

/// Appends `s` padded with spaces to `width` characters.
fn push_padded(out: &mut String, s: &str, width: usize)
    ensures
        final(out)@ == old(out)@ + padded(s@, width as nat),
{
    let v = chars_of(s);
    push_str(out, s);
    let ghost base = out@;
    let mut n = v.len();
    while n < width
        invariant
            v@ == s@,
            v.len() <= n <= width || (v.len() >= width && n == v.len()),
            out@ == base + Seq::new((n - v.len()) as nat, |_i: int| ' '),
        decreases width - n,
    {
        crate::text::push_char(out, ' ');
        assert(Seq::new((n + 1 - v.len()) as nat, |_i: int| ' ') =~= Seq::new(
            (n - v.len()) as nat,
            |_i: int| ' ',
        ).push(' '));
        n = n + 1;
    }
    assert(v.len() >= width ==> Seq::new((n - v.len()) as nat, |_i: int| ' ') =~= Seq::<
        char,
    >::empty());
    assert(v.len() < width ==> n == width);
}

/// One row of the client table: the six cells padded to 4, 20, 12, 10, 10 and
/// 8 characters, joined by " | ".
pub fn client_table_row(
    id: &str,
    name: &str,
    city: &str,
    status: &str,
    dob: &str,
    time: &str,
) -> (r: String)
    ensures
        r@ == padded(id@, 4) + " | "@ + padded(name@, 20) + " | "@ + padded(city@, 12) + " | "@
            + padded(status@, 10) + " | "@ + padded(dob@, 10) + " | "@ + padded(time@, 8),
{
    let mut r = String::new();
    push_padded(&mut r, id, 4);
    push_str(&mut r, " | ");
    push_padded(&mut r, name, 20);
    push_str(&mut r, " | ");
    push_padded(&mut r, city, 12);
    push_str(&mut r, " | ");
    push_padded(&mut r, status, 10);
    push_str(&mut r, " | ");
    push_padded(&mut r, dob, 10);
    push_str(&mut r, " | ");
    push_padded(&mut r, time, 8);
    r
}

/// `n` copies of `c`.
pub fn repeat_char(c: char, n: usize) -> (r: String)
    ensures
        r@ == Seq::new(n as nat, |_i: int| c),
{
    let mut r = String::new();
    let mut i: usize = 0;
    while i < n
        invariant
            i <= n,
            r@ == Seq::new(i as nat, |_i: int| c),
        decreases n - i,
    {
        crate::text::push_char(&mut r, c);
        assert(Seq::new((i + 1) as nat, |_i: int| c) =~= Seq::new(i as nat, |_i: int| c).push(c));
        i = i + 1;
    }
    r
}

/// How the fast track lists a client that matches the name: id, name, birth
/// date, birth time and place, "N/A" for what is missing.
pub fn client_match_line(id: &str, name: &str, dob: Option<String>, time: Option<String>, city: &str) -> (r:
    String)
    ensures
        r@ == "["@ + id@ + "] "@ + name@ + " - DOB: "@ + match dob {
            Some(d) => d@,
            None => "N/A"@,
        } + " | Time: "@ + match time {
            Some(t) => t@,
            None => "N/A"@,
        } + " | Place: "@ + city@,
{
    let mut r = concat2("[", id);
    push_str(&mut r, "] ");
    push_str(&mut r, name);
    push_str(&mut r, " - DOB: ");
    let d = display_or_na(dob);
    push_str(&mut r, d.as_str());
    push_str(&mut r, " | Time: ");
    let t = display_or_na(time);
    push_str(&mut r, t.as_str());
    push_str(&mut r, " | Place: ");
    push_str(&mut r, city);
    r
}

/// A field of a client that can be edited.
#[derive(Debug, Clone, Copy, PartialEq, Eq, Structural)]
pub enum EditField {
    Name,
    City,
    Status,
}

/// The field chosen in the edit menu (name, city, status).
pub fn edit_field_from_selection(selection: usize) -> (r: EditField)
    requires
        selection < 3,
    ensures
        selection == 0 ==> r == EditField::Name,
        selection == 1 ==> r == EditField::City,
        selection == 2 ==> r == EditField::Status,
{
    if selection == 0 {
        EditField::Name
    } else if selection == 1 {
        EditField::City
    } else {
        EditField::Status
    }
}

/// The statement that sets the field of the client with a given id.
pub fn update_statement(field: EditField) -> (r: String)
    ensures
        r@ == "UPDATE Clients SET "@ + match field {
            EditField::Name => "name"@,
            EditField::City => "city"@,
            EditField::Status => "status"@,
        } + " = ? WHERE id = ?"@,
{
    let mut r = owned("UPDATE Clients SET ");
    match field {
        EditField::Name => push_str(&mut r, "name"),
        EditField::City => push_str(&mut r, "city"),
        EditField::Status => push_str(&mut r, "status"),
    }
    push_str(&mut r, " = ? WHERE id = ?");
    r
}

/// A client marked "Refused" is never fast-tracked, and a fast-tracked client
/// has a birth date and a birth time.
pub proof fn lemma_fast_track_respects_profile(rows: Seq<ClientRow>, id: i64, r: FastTrack)
    requires
        fast_track_decision(rows, id, r),
    ensures
        first_with_id(rows, id) matches Some(i) && rows[i].status@ == "Refused"@ ==> r is Refused,
        r is Ready ==> (first_with_id(rows, id) matches Some(i) && rows[i].status@ != "Refused"@
            && text_or_empty(rows[i].dob).len() > 0 && text_or_empty(rows[i].time).len() > 0),
{
}

/// A reading's file name has no space when the time stamp has none.
pub proof fn lemma_file_name_has_no_space(name: Seq<char>, stamp: Seq<char>)
    requires
        !stamp.contains(' '),
    ensures
        !(replaced(name, " "@, "_"@) + "_"@ + stamp + ".html"@).contains(' '),
{
    reveal_strlit(" ");
    reveal_strlit("_");
    reveal_strlit(".html");
    let part = replaced(name, " "@, "_"@);
    lemma_replaced_leaves_no_match(name, " "@, "_"@);
    assert(!"_"@.contains(' '));
    assert forall|j: int| 0 <= j < part.len() implies part[j] != ' ' by {
        if part[j] == ' ' {
            assert(part.subrange(j, j + 1) =~= " "@);
            assert(matches_at(part, " "@, j));
        }
    }
    let whole = part + "_"@ + stamp + ".html"@;
    assert forall|j: int| 0 <= j < whole.len() implies whole[j] != ' ' by {
        if j < part.len() {
        } else if j < part.len() + 1 {
        } else if j < part.len() + 1 + stamp.len() {
            assert(whole[j] == stamp[j - part.len() - 1]);
        } else {
            assert(whole[j] == ".html"@[j - part.len() - 1 - stamp.len()]);
        }
    }
}

} // verus!
