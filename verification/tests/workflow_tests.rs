use astro_agent::api::{GeminiError, TARGET_DATE_MODEL, TARGET_DATE_SYSTEM_PROMPT};
use astro_agent::dates::CalendarDate;
use astro_agent::reading::{ReadingRequest, READING_MODEL};
use astro_agent::workflow::{
    begin_reading, reading_step, Place, ReadingAction, ReadingEvent, ReadingState, StopReason,
    AGENT_COOLDOWN_SECS,
};

fn request(name: &str, date: &str, time: &str) -> ReadingRequest {
    ReadingRequest {
        name: name.to_string(),
        date: date.to_string(),
        time: time.to_string(),
        city: "Pune".to_string(),
        question: format!("Will {} find work?", name),
        target_words: 500,
    }
}

fn pune() -> Place {
    Place {
        latitude_micro: 18_520_000,
        longitude_micro: 73_850_000,
        utc_offset_secs: 19_800,
        latitude_text: "18.52".to_string(),
        longitude_text: "73.85".to_string(),
        offset_text: "5.5".to_string(),
        offset_summary_text: "5.50".to_string(),
    }
}

fn located(name: &str) -> ReadingState {
    let (state, action) = begin_reading(request(name, "15/08/1990", "10:45 AM"));
    match action {
        ReadingAction::Locate { city, moment } => {
            assert_eq!(city, "Pune");
            assert_eq!((moment.date.year, moment.date.month, moment.date.day), (1990, 8, 15));
            assert_eq!((moment.time.hour, moment.time.minute), (10, 45));
        }
        other => panic!("unexpected {:?}", other),
    }
    let (state, action) = reading_step(state, ReadingEvent::Located(Ok(pune())));
    match action {
        ReadingAction::ManageClient { name: n, birth_data, .. } => {
            assert_eq!(n, name);
            assert_eq!(birth_data, "Date: 15/08/1990, Time: 10:45 AM, UTC Offset: 5.50");
        }
        other => panic!("unexpected {:?}", other),
    }
    state
}

fn text_of(action: &ReadingAction) -> String {
    match action {
        ReadingAction::CallTargetDateAgent { request, .. }
        | ReadingAction::CallReadingAgent { request, .. } => request.contents[0].parts[0].text.clone(),
        other => panic!("unexpected {:?}", other),
    }
}

#[test]
fn a_full_reading_runs_in_order() {
    let state = located("Asha");
    let (state, action) = reading_step(state, ReadingEvent::ClientRecorded(Ok((7, "Active".to_string()))));
    assert!(matches!(action, ReadingAction::AskHouseSystem));
    let (state, action) = reading_step(
        state,
        ReadingEvent::HouseSystemChosen { selection: 1, today_iso: "2024-03-01".to_string() },
    );
    match &action {
        ReadingAction::CallTargetDateAgent { model, .. } => assert_eq!(model, TARGET_DATE_MODEL),
        other => panic!("unexpected {:?}", other),
    }
    assert_eq!(
        text_of(&action),
        format!(
            "{}\n\nCurrent Date: 2024-03-01\nQuestion: Will The Querent find work?",
            TARGET_DATE_SYSTEM_PROMPT
        )
    );
    let (state, action) =
        reading_step(state, ReadingEvent::TargetDateReplied(Some("2025-01-15".to_string())));
    assert!(matches!(action, ReadingAction::Sleep(31)));
    assert_eq!(AGENT_COOLDOWN_SECS, 31);
    let today = CalendarDate { year: 2024, month: 3, day: 1 };
    let (state, action) = reading_step(
        state,
        ReadingEvent::CooldownOver { today, today_long: "01 March 2024".to_string() },
    );
    let sent = text_of(&action);
    assert!(!sent.contains("Asha"));
    assert!(sent.contains("Today's date: 01 March 2024. Target word count: 500."));
    assert!(sent.contains("Querent: The Querent\nQuestion: Will The Querent find work?"));
    assert!(sent.contains("City: Pune, Lat: 18.52, Lon: 73.85, Offset: 5.5"));
    match &action {
        ReadingAction::CallReadingAgent { model, prompt_log, .. } => {
            assert_eq!(model, READING_MODEL);
            assert_eq!(prompt_log, &sent);
        }
        other => panic!("unexpected {:?}", other),
    }
    let (state, action) = reading_step(
        state,
        ReadingEvent::ReadingReceived {
            outcome: Ok("Good things.".to_string()),
            stamp: "20240301_101500".to_string(),
        },
    );
    match action {
        ReadingAction::SaveReading { client_id, question, reading } => {
            assert_eq!(client_id, 7);
            assert_eq!(question, "Will Asha find work?");
            assert_eq!(reading, "Good things.");
        }
        other => panic!("unexpected {:?}", other),
    }
    let (state, action) = reading_step(state, ReadingEvent::Saved);
    match action {
        ReadingAction::WritePage { file_name, page, reading } => {
            assert_eq!(file_name, "Asha_20240301_101500.html");
            assert!(page.contains("<h1>Vedic Reading for Asha</h1>"));
            assert_eq!(reading, "Good things.");
        }
        other => panic!("unexpected {:?}", other),
    }
    assert!(matches!(state, ReadingState::Finished));
}

#[test]
fn a_refused_client_stops_the_reading() {
    let state = located("Ravi");
    let (state, action) =
        reading_step(state, ReadingEvent::ClientRecorded(Ok((3, "Refused".to_string()))));
    assert!(matches!(action, ReadingAction::Stop(StopReason::Refused)));
    assert!(matches!(state, ReadingState::Finished));
    // Nothing that comes later makes a call.
    let (_, action) = reading_step(
        state,
        ReadingEvent::HouseSystemChosen { selection: 0, today_iso: "2024-03-01".to_string() },
    );
    assert!(matches!(action, ReadingAction::Stop(StopReason::OutOfOrder)));
}

fn cooling() -> ReadingState {
    let state = located("Mia");
    let (state, _) = reading_step(state, ReadingEvent::ClientRecorded(Ok((1, "Active".to_string()))));
    let (state, _) = reading_step(
        state,
        ReadingEvent::HouseSystemChosen { selection: 0, today_iso: "2024-03-01".to_string() },
    );
    let (state, action) = reading_step(state, ReadingEvent::TargetDateReplied(None));
    assert!(matches!(action, ReadingAction::Sleep(31)));
    state
}

#[test]
fn the_reading_waits_for_the_cooldown() {
    let state = cooling();
    let (_, action) = reading_step(
        state,
        ReadingEvent::ReadingReceived { outcome: Ok("x".to_string()), stamp: "s".to_string() },
    );
    assert!(matches!(action, ReadingAction::Stop(StopReason::OutOfOrder)));
    let state = cooling();
    let bad_day = CalendarDate { year: 2024, month: 2, day: 30 };
    let (_, action) =
        reading_step(state, ReadingEvent::CooldownOver { today: bad_day, today_long: "x".to_string() });
    assert!(matches!(action, ReadingAction::Stop(StopReason::OutOfOrder)));
}

#[test]
fn a_failed_reading_saves_nothing() {
    let state = cooling();
    let today = CalendarDate { year: 2024, month: 3, day: 1 };
    let (state, action) = reading_step(
        state,
        ReadingEvent::CooldownOver { today, today_long: "01 March 2024".to_string() },
    );
    assert!(matches!(action, ReadingAction::CallReadingAgent { .. }));
    let (state, action) = reading_step(
        state,
        ReadingEvent::ReadingReceived {
            outcome: Err(GeminiError::ServerError("boom".to_string())),
            stamp: "s".to_string(),
        },
    );
    match action {
        ReadingAction::Stop(StopReason::ReadingFailed(GeminiError::ServerError(m))) => assert_eq!(m, "boom"),
        other => panic!("unexpected {:?}", other),
    }
    assert!(matches!(state, ReadingState::Finished));
    let (_, action) = reading_step(state, ReadingEvent::Saved);
    assert!(matches!(action, ReadingAction::Stop(StopReason::OutOfOrder)));
}

#[test]
fn failures_stop_with_their_message() {
    let (state, action) = begin_reading(request("Asha", "1990-08-15", "10:45 AM"));
    assert!(matches!(state, ReadingState::Finished));
    match action {
        ReadingAction::Stop(StopReason::InvalidBirthMoment(m)) => {
            assert_eq!(m, "Invalid Date Format. Please use DD/MM/YYYY")
        }
        other => panic!("unexpected {:?}", other),
    }
    let (_, action) = begin_reading(request("Asha", "15/08/1990", "quarter past"));
    match action {
        ReadingAction::Stop(StopReason::InvalidBirthMoment(m)) => {
            assert_eq!(m, "Invalid Time Format. Please use HH:MM AM/PM or HH:MM")
        }
        other => panic!("unexpected {:?}", other),
    }
    let (state, _) = begin_reading(request("Asha", "15/08/1990", "22:10"));
    let (_, action) = reading_step(state, ReadingEvent::Located(Err("City not found".to_string())));
    match action {
        ReadingAction::Stop(StopReason::LocationFailed(m)) => assert_eq!(m, "City not found"),
        other => panic!("unexpected {:?}", other),
    }
    let state = located("Asha");
    let (_, action) = reading_step(state, ReadingEvent::ClientRecorded(Err("disk full".to_string())));
    match action {
        ReadingAction::Stop(StopReason::DatabaseFailed(m)) => assert_eq!(m, "disk full"),
        other => panic!("unexpected {:?}", other),
    }
}

#[test]
fn an_answer_cut_inside_a_character_fails() {
    let state = located("Asha");
    let (state, _) = reading_step(state, ReadingEvent::ClientRecorded(Ok((1, "Active".to_string()))));
    let (state, _) = reading_step(
        state,
        ReadingEvent::HouseSystemChosen { selection: 1, today_iso: "2024-03-01".to_string() },
    );
    let (_, action) =
        reading_step(state, ReadingEvent::TargetDateReplied(Some("2025-06-0é".to_string())));
    match action {
        ReadingAction::Fail(m) => assert_eq!(m, "byte index 10 is not a char boundary"),
        other => panic!("unexpected {:?}", other),
    }
}

#[test]
fn calendar_dates_are_checked() {
    assert!(CalendarDate { year: 2024, month: 2, day: 29 }.is_valid());
    assert!(!CalendarDate { year: 2023, month: 2, day: 29 }.is_valid());
    assert!(CalendarDate { year: 2000, month: 2, day: 29 }.is_valid());
    assert!(!CalendarDate { year: 1900, month: 2, day: 29 }.is_valid());
    assert!(CalendarDate { year: -4, month: 2, day: 29 }.is_valid());
    assert!(!CalendarDate { year: 2024, month: 13, day: 1 }.is_valid());
    assert!(!CalendarDate { year: 262143, month: 1, day: 1 }.is_valid());
}
