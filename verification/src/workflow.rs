use vstd::prelude::*;

use crate::api::{
    build_request, combine_prompts, reply_cut_ok, request_for, target_date_prompt,
    target_date_prompt_text, target_date_text, try_choose_target_date, GeminiError, GeminiRequest,
    TARGET_DATE_MAX_TOKENS, TARGET_DATE_MODEL, TARGET_DATE_SYSTEM_PROMPT,
};
use crate::dates::{CalendarDate, LocalDateTime};
use crate::math::{calculate_astrology, detect_parivartan_yogas, BirthDetails, System};
use crate::reading::{
    anonymize_prompt, anonymized_text, birth_data_summary, birth_data_text, chart_with_timeline,
    compose_chart_summary, file_name_text, house_system_from_selection, is_refused, page_text,
    parse_birth_moment, reading_file_name, reading_html, reading_system_prompt,
    reading_user_prompt, resolve_target_date, system_prompt_text, target_date_of,
    user_prompt_text, ReadingRequest, READING_MAX_TOKENS, READING_MODEL,
};
use crate::rules::{format_summary, process, summary_text};
use crate::text::{decimal_text, ends_with, matches_at, owned, redacted, replaced};

verus! {

/// Seconds waited between the call that reads the target date and the call
/// that writes the reading, so that the two do not hit the rate limit.
pub const AGENT_COOLDOWN_SECS: u64 = 31;

/// What a target date that cannot be cut out of the answer is reported as.
pub const CUT_FAILURE: &'static str = "byte index 10 is not a char boundary";

/// What a missing fallback target date is reported as.
pub const NO_TARGET_DATE: &'static str = "called `Option::unwrap()` on a `None` value";

/// Where the client was born, as the location service and the time-zone
/// database resolved it: angles in millionths of a degree and the offset from
/// UTC in seconds, for the chart; and the same values as the prompt and the
/// journal write them.
#[derive(Debug)]
pub struct Place {
    pub latitude_micro: i64,
    pub longitude_micro: i64,
    pub utc_offset_secs: i32,
    /// The latitude in degrees, as the prompt writes it.
    pub latitude_text: String,
    /// The longitude in degrees, as the prompt writes it.
    pub longitude_text: String,
    /// The offset from UTC in hours, as the prompt writes it.
    pub offset_text: String,
    /// The offset from UTC in hours with two decimals, as the journal keeps it.
    pub offset_summary_text: String,
}

/// The client's record in the journal.
#[derive(Debug)]
pub struct Client {
    pub id: i64,
    pub status: String,
}

/// A reading whose chart has been drawn.
#[derive(Debug)]
pub struct Charted {
    pub request: ReadingRequest,
    pub place: Place,
    pub client: Client,
    pub chart_summary: String,
    pub alerts: String,
}

/// Why a reading stops before a page is written.
#[derive(Debug)]
pub enum StopReason {
    /// The birth date or time did not parse; the message says which.
    InvalidBirthMoment(String),
    /// The birth place could not be resolved.
    LocationFailed(String),
    /// The journal could not record the client.
    DatabaseFailed(String),
    /// The client is marked "Refused".
    Refused,
    /// The chart could not be drawn.
    ChartFailed(String),
    /// The call that writes the reading failed.
    ReadingFailed(GeminiError),
    /// An event came that the reading was not waiting for.
    OutOfOrder,
}

/// What the program does next for a reading.
#[derive(Debug)]
pub enum ReadingAction {
    /// Resolve the birth place to coordinates and an offset from UTC at the
    /// birth moment; answered by `Located`.
    Locate { city: String, moment: LocalDateTime },
    /// Record the client in the journal, or find the record; answered by
    /// `ClientRecorded`.
    ManageClient { name: String, city: String, date: String, time: String, birth_data: String },
    /// Ask which house system to draw the chart in; answered by
    /// `HouseSystemChosen`.
    AskHouseSystem,
    /// Ask the model for the target date; answered by `TargetDateReplied`.
    CallTargetDateAgent { model: String, request: GeminiRequest },
    /// Wait this many seconds; answered by `CooldownOver`.
    Sleep(u64),
    /// Keep the prompt log, then ask the model for the reading; answered by
    /// `ReadingReceived`.
    CallReadingAgent { model: String, request: GeminiRequest, prompt_log: String },
    /// Save the reading in the journal; answered by `Saved`.
    SaveReading { client_id: i64, question: String, reading: String },
    /// Write the reading's page (or, where it cannot be written, show the
    /// reading); the reading is done.
    WritePage { file_name: String, page: String, reading: String },
    /// Stop the reading.
    Stop(StopReason),
    /// Stop the program with this message: what the program does on an
    /// answer it cannot use.
    Fail(String),
}

/// What the program reports back after an action.
#[derive(Debug)]
pub enum ReadingEvent {
    /// The birth place, or the message of the failure.
    Located(Result<Place, String>),
    /// The client's record id and status, or the message of the failure.
    ClientRecorded(Result<(i64, String), String>),
    /// The entry chosen in the house-system menu, and today's date as
    /// `YYYY-MM-DD`.
    HouseSystemChosen { selection: usize, today_iso: String },
    /// The model's answer about the target date (`None` when the call failed).
    TargetDateReplied(Option<String>),
    /// The wait is over; today's date, and today's date as the reading's
    /// prompt writes it.
    CooldownOver { today: CalendarDate, today_long: String },
    /// The reading or why the call failed, and the time stamp of the page.
    ReadingReceived { outcome: Result<String, GeminiError>, stamp: String },
    /// The journal was written to (or the failure was reported).
    Saved,
}

/// Where a reading stands.
#[derive(Debug)]
pub enum ReadingState {
    AwaitLocation { request: ReadingRequest },
    AwaitClient { request: ReadingRequest, place: Place },
    AwaitHouseSystem { request: ReadingRequest, place: Place, client: Client },
    AwaitTargetDate { charted: Charted, today_iso: String },
    Cooling { charted: Charted, target: String },
    AwaitReading { client: Client, name: String, question: String },
    AwaitSaved { name: String, reading: String, stamp: String },
    Finished,
}

/// The view of an optional text.
pub open spec fn opt_text(o: Option<String>) -> Option<Seq<char>> {
    match o {
        Some(t) => Some(t@),
        None => None,
    }
}

/// How a reading starts: with the birth moment parsed, the birth place is
/// looked up; else it stops with the message of what did not parse.
pub open spec fn reading_start(request: ReadingRequest, s: ReadingState, a: ReadingAction) -> bool {
    match crate::reading::birth_moment_text(request.date@, request.time@) {
        Err(m) => {
            &&& s is Finished
            &&& a matches ReadingAction::Stop(StopReason::InvalidBirthMoment(m2))
            &&& m2@ == m
        },
        Ok(moment) => {
            &&& s == (ReadingState::AwaitLocation { request })
            &&& a matches ReadingAction::Locate { city, moment: mo }
            &&& city@ == request.city@
            &&& mo == moment
        },
    }
}

/// The event is one that the state waits for.
pub open spec fn accepts(s: ReadingState, e: ReadingEvent) -> bool {
    match s {
        ReadingState::AwaitLocation { .. } => e is Located,
        ReadingState::AwaitClient { .. } => e is ClientRecorded,
        ReadingState::AwaitHouseSystem { .. } => e is HouseSystemChosen,
        ReadingState::AwaitTargetDate { .. } => e is TargetDateReplied,
        ReadingState::Cooling { .. } => e matches ReadingEvent::CooldownOver { today, .. }
            && today.valid(),
        ReadingState::AwaitReading { .. } => e is ReadingReceived,
        ReadingState::AwaitSaved { .. } => e is Saved,
        ReadingState::Finished => false,
    }
}

/// The status of the client whose record the state holds, where it holds one.
pub open spec fn client_status(s: ReadingState) -> Option<Seq<char>> {
    match s {
        ReadingState::AwaitHouseSystem { client, .. } => Some(client.status@),
        ReadingState::AwaitTargetDate { charted, .. } => Some(charted.client.status@),
        ReadingState::Cooling { charted, .. } => Some(charted.client.status@),
        ReadingState::AwaitReading { client, .. } => Some(client.status@),
        _ => None,
    }
}

/// Every client record that a state holds is of a client who is not refused.
pub open spec fn no_refused_client(s: ReadingState) -> bool {
    client_status(s) matches Some(st) ==> st != "Refused"@
}

/// The step of a reading from state `s` on event `e` to state `s2`, with the
/// action `a` to perform:
/// - a failed location lookup, a failed journal write or a client marked
///   "Refused" stops the reading;
/// - the chart is drawn in the house system chosen, and the target date is
///   asked of the model with the client's name taken out of the request;
/// - the answer is followed by a wait of `AGENT_COOLDOWN_SECS` seconds, and
///   only after it is the reading asked for, again without the client's name;
/// - a failed reading call stops the reading: nothing is saved and no page is
///   written; a reading is saved, then its page written;
/// - an event that the state does not wait for stops the reading.
pub open spec fn reading_transition(
    s: ReadingState,
    e: ReadingEvent,
    s2: ReadingState,
    a: ReadingAction,
) -> bool {
    if !accepts(s, e) {
        s2 is Finished && a == ReadingAction::Stop(StopReason::OutOfOrder)
    } else {
        match s {
            ReadingState::AwaitLocation { request } => match e {
                ReadingEvent::Located(Err(m)) => s2 is Finished && a == ReadingAction::Stop(
                    StopReason::LocationFailed(m),
                ),
                ReadingEvent::Located(Ok(place)) => {
                    &&& s2 == (ReadingState::AwaitClient { request, place })
                    &&& a matches ReadingAction::ManageClient { name, city, date, time, birth_data }
                    &&& name@ == request.name@
                    &&& city@ == request.city@
                    &&& date@ == request.date@
                    &&& time@ == request.time@
                    &&& birth_data@ == birth_data_text(
                        request.date@,
                        request.time@,
                        place.offset_summary_text@,
                    )
                },
                _ => false,
            },
            ReadingState::AwaitClient { request, place } => match e {
                ReadingEvent::ClientRecorded(Err(m)) => s2 is Finished && a == ReadingAction::Stop(
                    StopReason::DatabaseFailed(m),
                ),
                ReadingEvent::ClientRecorded(Ok((id, status))) => if status@ == "Refused"@ {
                    s2 is Finished && a == ReadingAction::Stop(StopReason::Refused)
                } else {
                    s2 == (ReadingState::AwaitHouseSystem {
                        request,
                        place,
                        client: Client { id, status },
                    }) && a == ReadingAction::AskHouseSystem
                },
                _ => false,
            },
            ReadingState::AwaitHouseSystem { request, place, client } => match e {
                ReadingEvent::HouseSystemChosen { selection, today_iso } => {
                    &&& s2 matches ReadingState::AwaitTargetDate { charted, today_iso: t2 }
                    &&& t2 == today_iso
                    &&& charted.request == request
                    &&& charted.place == place
                    &&& charted.client == client
                    &&& charted.chart_summary@ == summary_text()
                    &&& charted.alerts@ == Seq::<char>::empty()
                    &&& a matches ReadingAction::CallTargetDateAgent { model, request: req }
                    &&& model@ == TARGET_DATE_MODEL@
                    &&& request_for(
                        req,
                        TARGET_DATE_SYSTEM_PROMPT@,
                        target_date_prompt_text(today_iso@, request.question@, request.name@),
                        TARGET_DATE_MAX_TOKENS,
                        request.name@,
                    )
                },
                _ => false,
            },
            ReadingState::AwaitTargetDate { charted, today_iso } => match e {
                ReadingEvent::TargetDateReplied(reply) => if opt_text(reply) matches Some(t)
                    && !reply_cut_ok(t) {
                    &&& s2 is Finished
                    &&& a matches ReadingAction::Fail(m)
                    &&& m@ == CUT_FAILURE@
                } else {
                    &&& s2 matches ReadingState::Cooling { charted: c2, target }
                    &&& c2 == charted
                    &&& target@ == target_date_text(opt_text(reply), today_iso@)
                    &&& a == ReadingAction::Sleep(AGENT_COOLDOWN_SECS)
                },
                _ => false,
            },
            ReadingState::Cooling { charted, target } => match e {
                ReadingEvent::CooldownOver { today, today_long } => match target_date_of(
                    target@,
                    today,
                ) {
                    None => {
                        &&& s2 is Finished
                        &&& a matches ReadingAction::Fail(m)
                        &&& m@ == NO_TARGET_DATE@
                    },
                    Some(_) => {
                        let name = charted.request.name@;
                        let system = system_prompt_text(
                            today_long@,
                            charted.request.target_words,
                        );
                        let user = user_prompt_text(
                            name,
                            charted.request.question@,
                            charted.request.city@,
                            charted.place.latitude_text@,
                            charted.place.longitude_text@,
                            charted.place.offset_text@,
                            chart_with_timeline(charted.chart_summary@, Seq::empty()),
                        );
                        let anonymized = anonymized_text(user, name, charted.alerts@);
                        &&& s2 == (ReadingState::AwaitReading {
                            client: charted.client,
                            name: charted.request.name,
                            question: charted.request.question,
                        })
                        &&& a matches ReadingAction::CallReadingAgent { model, request, prompt_log }
                        &&& model@ == READING_MODEL@
                        &&& request_for(request, system, anonymized, READING_MAX_TOKENS, name)
                        &&& prompt_log@ == system + "\n\n"@ + anonymized
                    },
                },
                _ => false,
            },
            ReadingState::AwaitReading { client, name, question } => match e {
                ReadingEvent::ReadingReceived { outcome: Err(err), .. } => s2 is Finished && a
                    == ReadingAction::Stop(StopReason::ReadingFailed(err)),
                ReadingEvent::ReadingReceived { outcome: Ok(text), stamp } => {
                    &&& s2 matches ReadingState::AwaitSaved { name: n2, reading, stamp: st2 }
                    &&& n2 == name
                    &&& reading@ == text@
                    &&& st2 == stamp
                    &&& a == ReadingAction::SaveReading {
                        client_id: client.id,
                        question,
                        reading: text,
                    }
                },
                _ => false,
            },
            ReadingState::AwaitSaved { name, reading, stamp } => {
                &&& s2 is Finished
                &&& a matches ReadingAction::WritePage { file_name, page, reading: r2 }
                &&& file_name@ == file_name_text(name@, stamp@)
                &&& page@ == page_text(name@, reading@)
                &&& r2 == reading
            },
            ReadingState::Finished => false,
        }
    }
}

/// A client marked "Refused" stops the reading at once, and a stopped reading
/// waits for no event, so no model is ever called for that client. Every step
/// keeps the reading free of refused clients, and each call to a model is made
/// from a state that holds a client who is not refused.
pub proof fn lemma_refused_client_gets_no_reading(
    s: ReadingState,
    e: ReadingEvent,
    s2: ReadingState,
    a: ReadingAction,
)
    requires
        no_refused_client(s),
        reading_transition(s, e, s2, a),
    ensures
        e matches ReadingEvent::ClientRecorded(Ok((_, st))) ==> (st@ == "Refused"@ && s is AwaitClient
            ==> s2 is Finished && a == ReadingAction::Stop(StopReason::Refused)),
        forall|e2: ReadingEvent| !accepts(ReadingState::Finished, e2),
        no_refused_client(s2),
        (a is CallTargetDateAgent || a is CallReadingAgent) ==> (client_status(s) matches Some(st)
            && st != "Refused"@),
{
}

/// The reading is asked for only after the wait: it is asked for only from
/// the waiting state, on the event that the wait is over; the waiting state is
/// entered only when the target date has come back, with a wait of
/// `AGENT_COOLDOWN_SECS` seconds as the action; and it waits for nothing but
/// the end of the wait.
pub proof fn lemma_cooldown_between_agents(
    s: ReadingState,
    e: ReadingEvent,
    s2: ReadingState,
    a: ReadingAction,
)
    requires
        reading_transition(s, e, s2, a),
    ensures
        a is CallReadingAgent ==> (s is Cooling && e is CooldownOver),
        s2 is Cooling ==> (s is AwaitTargetDate && e is TargetDateReplied && a
            == ReadingAction::Sleep(AGENT_COOLDOWN_SECS)),
        (s is AwaitTargetDate && e is TargetDateReplied) ==> (a == ReadingAction::Sleep(
            AGENT_COOLDOWN_SECS,
        ) || a is Fail),
        a is CallTargetDateAgent ==> (s is AwaitHouseSystem && s2 is AwaitTargetDate),
        forall|e2: ReadingEvent|
            #![trigger accepts(s, e2)]
            s is Cooling && accepts(s, e2) ==> e2 is CooldownOver,
{
}

/// A failed reading call stops the reading: nothing is saved and no page is
/// written. A reading is saved only as it came back, and a page is written
/// only after the reading was saved.
pub proof fn lemma_failed_reading_saves_nothing(
    s: ReadingState,
    e: ReadingEvent,
    s2: ReadingState,
    a: ReadingAction,
)
    requires
        reading_transition(s, e, s2, a),
    ensures
        e matches ReadingEvent::ReadingReceived { outcome: Err(err), .. } ==> (s is AwaitReading
            ==> s2 is Finished && a == ReadingAction::Stop(StopReason::ReadingFailed(err))),
        a matches ReadingAction::SaveReading { reading, .. } ==> (e matches ReadingEvent::ReadingReceived {
            outcome: Ok(text),
            ..
        } && text == reading && s is AwaitReading),
        s2 is AwaitSaved ==> (e matches ReadingEvent::ReadingReceived { outcome: Ok(_), .. }),
        a is WritePage ==> (s is AwaitSaved && e is Saved),
{
}

/// A birth date or time that does not parse, a birth place that cannot be
/// resolved and a journal that cannot be written each stop the reading with
/// the message of the failure.
pub proof fn lemma_failures_stop_with_message(
    request: ReadingRequest,
    s0: ReadingState,
    a0: ReadingAction,
    s: ReadingState,
    e: ReadingEvent,
    s2: ReadingState,
    a: ReadingAction,
)
    requires
        reading_start(request, s0, a0),
        reading_transition(s, e, s2, a),
    ensures
        crate::reading::birth_moment_text(request.date@, request.time@) matches Err(m) ==> (
        a0 matches ReadingAction::Stop(StopReason::InvalidBirthMoment(m2)) && m2@ == m
            && s0 is Finished),
        e matches ReadingEvent::Located(Err(m)) ==> (s is AwaitLocation ==> s2 is Finished && a
            == ReadingAction::Stop(StopReason::LocationFailed(m))),
        e matches ReadingEvent::ClientRecorded(Err(m)) ==> (s is AwaitClient ==> s2 is Finished
            && a == ReadingAction::Stop(StopReason::DatabaseFailed(m))),
{
}

/// The reading is asked for at the length the client asked for and with
/// today's date: the prompt kept in the log opens with the system prompt that
/// names the date given at the end of the wait and the requested word count,
/// and the request sent is that prompt with the client's name taken out.
pub proof fn lemma_reading_prompt_carries_the_request(
    s: ReadingState,
    e: ReadingEvent,
    s2: ReadingState,
    a: ReadingAction,
)
    requires
        reading_transition(s, e, s2, a),
    ensures
        s matches ReadingState::Cooling { charted, .. } ==> (e matches ReadingEvent::CooldownOver {
            today_long,
            ..
        } ==> (a matches ReadingAction::CallReadingAgent { request, prompt_log, .. } ==> {
            let head =
                "[PROPRIETARY ASTROLOGICAL MASTER PROMPT REDACTED FOR PUBLIC REPOSITORY]\nToday's date: "@
                + today_long@ + ". Target word count: "@ + decimal_text(
                charted.request.target_words as nat,
            ) + "."@;
            &&& head.is_prefix_of(prompt_log@)
            &&& request.contents@[0].parts@[0].text@ == redacted(
                prompt_log@,
                charted.request.name@,
                "The Querent"@,
            )
        })),
{
    if let ReadingState::Cooling { charted, .. } = s {
        if let ReadingEvent::CooldownOver { today_long, .. } = e {
            if let ReadingAction::CallReadingAgent { request, prompt_log, .. } = a {
                let head =
                    "[PROPRIETARY ASTROLOGICAL MASTER PROMPT REDACTED FOR PUBLIC REPOSITORY]\nToday's date: "@
                    + today_long@ + ". Target word count: "@ + decimal_text(
                    charted.request.target_words as nat,
                ) + "."@;
                assert(prompt_log@.subrange(0, head.len() as int) =~= head);
            }
        }
    }
}

/// What is written is what came back: once a reading has come back and been
/// saved, the page written opens with the client's name in its title and ends
/// with the reading followed by the closing tags, the file is named after the
/// client (spaces made underscores) and the reading's time stamp, and the
/// reading kept to be shown is the reading itself.
pub proof fn lemma_page_holds_the_reading(
    client: Client,
    name: String,
    question: String,
    text: String,
    stamp: String,
    s1: ReadingState,
    a1: ReadingAction,
    s2: ReadingState,
    a2: ReadingAction,
)
    requires
        reading_transition(
            ReadingState::AwaitReading { client, name, question },
            ReadingEvent::ReadingReceived { outcome: Ok(text), stamp },
            s1,
            a1,
        ),
        reading_transition(s1, ReadingEvent::Saved, s2, a2),
    ensures
        a1 matches ReadingAction::SaveReading { reading, .. } && reading == text,
        a2 matches ReadingAction::WritePage { file_name, page, reading } && reading@ == text@
            && ends_with(page@, text@ + "</pre>\n</body>\n</html>"@) && (
        "<!DOCTYPE html>\n<html>\n<head>\n<meta charset=\"UTF-8\">\n<title>Vedic Reading - "@
            + name@).is_prefix_of(page@) && file_name@ == replaced(name@, " "@, "_"@) + "_"@
            + stamp@ + ".html"@,
{
    if let ReadingAction::WritePage { file_name, page, reading } = a2 {
        let tail = text@ + "</pre>\n</body>\n</html>"@;
        assert(page@.subrange(page@.len() - tail.len(), page@.len() as int) =~= tail);
        let head =
            "<!DOCTYPE html>\n<html>\n<head>\n<meta charset=\"UTF-8\">\n<title>Vedic Reading - "@
            + name@;
        assert(page@.subrange(0, head.len() as int) =~= head);
    }
}

/// Starts a reading (see `reading_start`).
pub fn begin_reading(request: ReadingRequest) -> (r: (ReadingState, ReadingAction))
    ensures
        reading_start(request, r.0, r.1),
        no_refused_client(r.0),
{
    match parse_birth_moment(request.date.as_str(), request.time.as_str()) {
        Err(m) => (ReadingState::Finished, ReadingAction::Stop(StopReason::InvalidBirthMoment(m))),
        Ok(moment) => {
            let city = owned(request.city.as_str());
            (ReadingState::AwaitLocation { request }, ReadingAction::Locate { city, moment })
        },
    }
}

/// Whether state `s` waits for event `e` (see `accepts`).
pub fn waits_for(s: &ReadingState, e: &ReadingEvent) -> (r: bool)
    ensures
        r == accepts(*s, *e),
{
    match s {
        ReadingState::AwaitLocation { .. } => matches!(e, ReadingEvent::Located(_)),
        ReadingState::AwaitClient { .. } => matches!(e, ReadingEvent::ClientRecorded(_)),
        ReadingState::AwaitHouseSystem { .. } => matches!(e, ReadingEvent::HouseSystemChosen { .. }),
        ReadingState::AwaitTargetDate { .. } => matches!(e, ReadingEvent::TargetDateReplied(_)),
        ReadingState::Cooling { .. } => match e {
            ReadingEvent::CooldownOver { today, .. } => today.is_valid(),
            _ => false,
        },
        ReadingState::AwaitReading { .. } => matches!(e, ReadingEvent::ReadingReceived { .. }),
        ReadingState::AwaitSaved { .. } => matches!(e, ReadingEvent::Saved),
        ReadingState::Finished => false,
    }
}

/// One step of a reading (see `reading_transition`).
pub fn reading_step(s: ReadingState, e: ReadingEvent) -> (r: (ReadingState, ReadingAction))
    ensures
        reading_transition(s, e, r.0, r.1),
        no_refused_client(s) ==> no_refused_client(r.0),
{
    if !waits_for(&s, &e) {
        return (ReadingState::Finished, ReadingAction::Stop(StopReason::OutOfOrder));
    }
    match s {
        ReadingState::AwaitLocation { request } => match e {
            ReadingEvent::Located(Err(m)) => (
                ReadingState::Finished,
                ReadingAction::Stop(StopReason::LocationFailed(m)),
            ),
            ReadingEvent::Located(Ok(place)) => {
                let birth_data = birth_data_summary(
                    request.date.as_str(),
                    request.time.as_str(),
                    place.offset_summary_text.as_str(),
                );
                let action = ReadingAction::ManageClient {
                    name: owned(request.name.as_str()),
                    city: owned(request.city.as_str()),
                    date: owned(request.date.as_str()),
                    time: owned(request.time.as_str()),
                    birth_data,
                };
                (ReadingState::AwaitClient { request, place }, action)
            },
            _ => (ReadingState::Finished, ReadingAction::Stop(StopReason::OutOfOrder)),
        },
        ReadingState::AwaitClient { request, place } => match e {
            ReadingEvent::ClientRecorded(Err(m)) => (
                ReadingState::Finished,
                ReadingAction::Stop(StopReason::DatabaseFailed(m)),
            ),
            ReadingEvent::ClientRecorded(Ok((id, status))) => {
                if is_refused(status.as_str()) {
                    (ReadingState::Finished, ReadingAction::Stop(StopReason::Refused))
                } else {
                    (
                        ReadingState::AwaitHouseSystem { request, place, client: Client { id, status } },
                        ReadingAction::AskHouseSystem,
                    )
                }
            },
            _ => (ReadingState::Finished, ReadingAction::Stop(StopReason::OutOfOrder)),
        },
        ReadingState::AwaitHouseSystem { request, place, client } => match e {
            ReadingEvent::HouseSystemChosen { selection, today_iso } => {
                let details = BirthDetails {
                    date: owned(request.date.as_str()),
                    time: owned(request.time.as_str()),
                    latitude_micro: place.latitude_micro,
                    longitude_micro: place.longitude_micro,
                    utc_offset_secs: place.utc_offset_secs,
                    system: System::Vedic,
                    house_system: house_system_from_selection(selection),
                };
                match calculate_astrology(details) {
                    Err(m) => (
                        ReadingState::Finished,
                        ReadingAction::Stop(StopReason::ChartFailed(m)),
                    ),
                    Ok(data) => {
                        let chart_summary = format_summary(&process(&data));
                        let alerts = detect_parivartan_yogas(data.planets.as_slice());
                        let prompt = target_date_prompt(
                            today_iso.as_str(),
                            request.question.as_str(),
                            request.name.as_str(),
                        );
                        let req = build_request(
                            TARGET_DATE_SYSTEM_PROMPT,
                            prompt.as_str(),
                            TARGET_DATE_MAX_TOKENS,
                            request.name.as_str(),
                        );
                        let charted = Charted { request, place, client, chart_summary, alerts };
                        (
                            ReadingState::AwaitTargetDate { charted, today_iso },
                            ReadingAction::CallTargetDateAgent {
                                model: owned(TARGET_DATE_MODEL),
                                request: req,
                            },
                        )
                    },
                }
            },
            _ => (ReadingState::Finished, ReadingAction::Stop(StopReason::OutOfOrder)),
        },
        ReadingState::AwaitTargetDate { charted, today_iso } => match e {
            ReadingEvent::TargetDateReplied(reply) => {
                let chosen = match &reply {
                    Some(t) => try_choose_target_date(Some(t.as_str()), today_iso.as_str()),
                    None => try_choose_target_date(None, today_iso.as_str()),
                };
                match chosen {
                    None => (ReadingState::Finished, ReadingAction::Fail(owned(CUT_FAILURE))),
                    Some(target) => (
                        ReadingState::Cooling { charted, target },
                        ReadingAction::Sleep(AGENT_COOLDOWN_SECS),
                    ),
                }
            },
            _ => (ReadingState::Finished, ReadingAction::Stop(StopReason::OutOfOrder)),
        },
        ReadingState::Cooling { charted, target } => match e {
            ReadingEvent::CooldownOver { today, today_long } => {
                match resolve_target_date(target.as_str(), today) {
                    None => (ReadingState::Finished, ReadingAction::Fail(owned(NO_TARGET_DATE))),
                    Some(_) => {
                        // No dasha timeline generator ships with this program,
                        // so the timeline section is empty.
                        let final_chart = compose_chart_summary(charted.chart_summary.as_str(), "");
                        proof {
                            reveal_strlit("");
                        }
                        let system = reading_system_prompt(
                            today_long.as_str(),
                            charted.request.target_words,
                        );
                        let user = reading_user_prompt(
                            charted.request.name.as_str(),
                            charted.request.question.as_str(),
                            charted.request.city.as_str(),
                            charted.place.latitude_text.as_str(),
                            charted.place.longitude_text.as_str(),
                            charted.place.offset_text.as_str(),
                            final_chart.as_str(),
                        );
                        let anonymized = anonymize_prompt(
                            user.as_str(),
                            charted.request.name.as_str(),
                            charted.alerts.as_str(),
                        );
                        let prompt_log = combine_prompts(system.as_str(), anonymized.as_str());
                        let request = build_request(
                            system.as_str(),
                            anonymized.as_str(),
                            READING_MAX_TOKENS,
                            charted.request.name.as_str(),
                        );
                        let Charted { request: reading_request, client, .. } = charted;
                        let ReadingRequest { name, question, .. } = reading_request;
                        (
                            ReadingState::AwaitReading { client, name, question },
                            ReadingAction::CallReadingAgent {
                                model: owned(READING_MODEL),
                                request,
                                prompt_log,
                            },
                        )
                    },
                }
            },
            _ => (ReadingState::Finished, ReadingAction::Stop(StopReason::OutOfOrder)),
        },
        ReadingState::AwaitReading { client, name, question } => match e {
            ReadingEvent::ReadingReceived { outcome: Err(err), .. } => (
                ReadingState::Finished,
                ReadingAction::Stop(StopReason::ReadingFailed(err)),
            ),
            ReadingEvent::ReadingReceived { outcome: Ok(text), stamp } => {
                let reading = owned(text.as_str());
                (
                    ReadingState::AwaitSaved { name, reading, stamp },
                    ReadingAction::SaveReading { client_id: client.id, question, reading: text },
                )
            },
            _ => (ReadingState::Finished, ReadingAction::Stop(StopReason::OutOfOrder)),
        },
        ReadingState::AwaitSaved { name, reading, stamp } => {
            let file_name = reading_file_name(name.as_str(), stamp.as_str());
            let page = reading_html(name.as_str(), reading.as_str());
            (ReadingState::Finished, ReadingAction::WritePage { file_name, page, reading })
        },
        ReadingState::Finished => (ReadingState::Finished, ReadingAction::Stop(
            StopReason::OutOfOrder,
        )),
    }
}

} // verus!
