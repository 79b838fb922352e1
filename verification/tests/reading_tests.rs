use astro_agent::reading::{pick_match, MatchPick};
use astro_agent::dates::{CalendarDate, ClockTime, LocalDateTime};
use astro_agent::math::HouseSystem;
use astro_agent::reading::{
    anonymize_prompt, birth_data_summary, client_match_line, client_table_row, repeat_char, birth_moment_from, target_date_or, compose_chart_summary, display_or_na,
    edit_field_from_selection, eq_ignore_ascii_case, fast_track_choice,
    house_system_from_selection, is_cancel, is_refused, name_search_pattern, parse_birth_moment,
    parse_client_id, parse_word_count, reading_file_name, reading_from_args, reading_html,
    reading_system_prompt, reading_user_prompt, resolve_target_date, update_statement,
    ClientRow, EditField, FastTrack,
};

#[test]
fn statuses_and_answers() {
    assert!(is_refused("Refused"));
    assert!(!is_refused("refused"));
    assert!(!is_refused("Active"));
    assert!(is_cancel(" CANCEL \n"));
    assert!(is_cancel("Cancel"));
    assert!(!is_cancel("cancelled"));
    assert!(!is_cancel("John"));
    assert!(eq_ignore_ascii_case("ÄbC", "Äbc"));
    assert!(!eq_ignore_ascii_case("äbc", "Äbc"));
    assert_eq!(parse_client_id(" 42 "), Some(42));
    assert_eq!(parse_client_id("-3"), Some(-3));
    assert_eq!(parse_client_id("forty"), None);
    assert_eq!(parse_word_count("750"), 750);
    assert_eq!(parse_word_count("lots"), 500);
    assert_eq!(parse_word_count(" 750"), 500);
    assert_eq!(house_system_from_selection(0), HouseSystem::Placidus);
    assert_eq!(house_system_from_selection(1), HouseSystem::WholeSign);
    assert_eq!(house_system_from_selection(7), HouseSystem::WholeSign);
}

fn row(id: i64, name: &str, dob: Option<&str>, time: Option<&str>, status: &str) -> ClientRow {
    ClientRow {
        id,
        name: name.to_string(),
        dob: dob.map(|s| s.to_string()),
        time: time.map(|s| s.to_string()),
        city: "Pune".to_string(),
        status: status.to_string(),
    }
}

#[test]
fn fast_track_outcomes() {
    let rows = || {
        vec![
            row(1, "Asha", Some("01/01/1990"), Some("10:00 AM"), "Active"),
            row(2, "Ravi", Some("02/02/1991"), Some("11:00 AM"), "Refused"),
            row(3, "Mira", None, Some("09:00 AM"), "Active"),
            row(4, "Dev", Some("04/04/1994"), Some(""), "Active"),
        ]
    };
    assert!(matches!(fast_track_choice(rows(), 9), FastTrack::NotFound));
    assert!(matches!(fast_track_choice(rows(), 2), FastTrack::Refused));
    assert!(matches!(fast_track_choice(rows(), 3), FastTrack::Incomplete));
    assert!(matches!(fast_track_choice(rows(), 4), FastTrack::Incomplete));
    match fast_track_choice(rows(), 1) {
        FastTrack::Ready(c) => {
            assert_eq!(c.name, "Asha");
            assert_eq!(c.dob, "01/01/1990");
            assert_eq!(c.time, "10:00 AM");
            assert_eq!(c.city, "Pune");
        },
        other => panic!("unexpected {:?}", other),
    }
    assert!(matches!(fast_track_choice(Vec::new(), 1), FastTrack::NotFound));
}

#[test]
fn command_line_reading() {
    let args = |v: &[&str]| v.iter().map(|s| s.to_string()).collect::<Vec<String>>();
    assert!(reading_from_args(&args(&["prog", "a", "b", "c", "d"])).is_none());
    let q = reading_from_args(&args(&["prog", "Asha", "01/01/1990", "10:00 AM", "Pune", "Job?"]))
        .unwrap();
    assert_eq!(q.name, "Asha");
    assert_eq!(q.date, "01/01/1990");
    assert_eq!(q.time, "10:00 AM");
    assert_eq!(q.city, "Pune");
    assert_eq!(q.question, "Job?");
    assert_eq!(q.target_words, 500);
    let q = reading_from_args(&args(&["prog", "A", "d", "t", "c", "q", "900"])).unwrap();
    assert_eq!(q.target_words, 900);
    let q = reading_from_args(&args(&["prog", "A", "d", "t", "c", "q", "many"])).unwrap();
    assert_eq!(q.target_words, 500);
}

#[test]
fn birth_moment_and_target_date() {
    assert_eq!(
        parse_birth_moment("15/08/1990", "10:45 AM"),
        Ok(LocalDateTime {
            date: CalendarDate { year: 1990, month: 8, day: 15 },
            time: ClockTime { hour: 10, minute: 45, second: 0 },
        })
    );
    assert_eq!(
        parse_birth_moment("15/08/1990", "22:05").map(|m| m.time),
        Ok(ClockTime { hour: 22, minute: 5, second: 0 })
    );
    assert_eq!(
        parse_birth_moment("1990-08-15", "10:45 AM"),
        Err("Invalid Date Format. Please use DD/MM/YYYY".to_string())
    );
    assert_eq!(
        parse_birth_moment("15/08/1990", "quarter past ten"),
        Err("Invalid Time Format. Please use HH:MM AM/PM or HH:MM".to_string())
    );
    let today = CalendarDate { year: 2024, month: 5, day: 1 };
    assert_eq!(
        resolve_target_date("2026-02-03", today),
        Some(CalendarDate { year: 2026, month: 2, day: 3 })
    );
    assert_eq!(
        resolve_target_date("not a date", today),
        Some(CalendarDate { year: 2025, month: 5, day: 1 })
    );
}

#[test]
fn parsed_parts_combine() {
    let d = CalendarDate { year: 2000, month: 1, day: 2 };
    let t12 = ClockTime { hour: 13, minute: 0, second: 0 };
    let t24 = ClockTime { hour: 14, minute: 0, second: 0 };
    assert_eq!(birth_moment_from(Some(d), Some(t12), Some(t24)), Ok(LocalDateTime { date: d, time: t12 }));
    assert_eq!(birth_moment_from(Some(d), None, Some(t24)), Ok(LocalDateTime { date: d, time: t24 }));
    assert_eq!(
        birth_moment_from(Some(d), None, None),
        Err("Invalid Time Format. Please use HH:MM AM/PM or HH:MM".to_string())
    );
    assert_eq!(
        birth_moment_from(None, Some(t12), None),
        Err("Invalid Date Format. Please use DD/MM/YYYY".to_string())
    );
    let later = CalendarDate { year: 2001, month: 1, day: 2 };
    assert_eq!(target_date_or(Some(d), Some(later)), Some(d));
    assert_eq!(target_date_or(None, Some(later)), Some(later));
    assert_eq!(target_date_or(None, None), None);
}

#[test]
fn prompt_texts() {
    assert_eq!(
        birth_data_summary("15/08/1990", "10:45 AM", "5.50"),
        "Date: 15/08/1990, Time: 10:45 AM, UTC Offset: 5.50"
    );
    assert_eq!(
        compose_chart_summary("chart", "timeline"),
        "chart\n\n--- ACTIVE VIMSHOTTARI DASHA TIMELINE (From Today to Target Date) ---\ntimeline\n"
    );
    assert_eq!(
        reading_system_prompt("01 May 2024", 500),
        format!(
            "[PROPRIETARY ASTROLOGICAL MASTER PROMPT REDACTED FOR PUBLIC REPOSITORY]\n\
    Today's date: {}. Target word count: {}.",
            "01 May 2024", 500
        )
    );
    assert_eq!(
        reading_user_prompt("Asha", "Job?", "Pune", "18.52", "73.85", "5.5", "DATA"),
        format!(
            "Querent: {}\nQuestion: {}\nResolution: City: {}, Lat: {}, Lon: {}, Offset: {}\n\nChart Data:\n{}",
            "Asha", "Job?", "Pune", "18.52", "73.85", "5.5", "DATA"
        )
    );
}

#[test]
fn the_name_is_taken_out_of_the_prompt() {
    let prompt = "Querent: Asha Rao\nQuestion: Will Asha Rao move?";
    let sent = anonymize_prompt(prompt, "Asha Rao", "");
    assert_eq!(sent, "Querent: The Querent\nQuestion: Will The Querent move?");
    assert!(!sent.contains("Asha Rao"));
    assert_eq!(anonymize_prompt("no name here", "Asha", " ALERT"), "no name here ALERT");
}

#[test]
fn the_name_does_not_form_again_beside_the_placeholder() {
    // `str::replace` would leave "The QuerentA", which holds "ntA".
    let sent = anonymize_prompt("ntAA", "ntA", "");
    assert!(!sent.contains("ntA"));
    assert_eq!(sent, "The QuereThe Querent");
    // A name that is part of the placeholder is taken out of it too.
    let sent = anonymize_prompt("Querent: Querent", "Querent", "");
    assert!(!sent.contains("Querent"));
    // The alerts are searched as well.
    let sent = anonymize_prompt("Querent: Sun\n", "Sun", "Parivartan: Sun and Moon");
    assert!(!sent.contains("Sun"));
    assert_eq!(sent, "Querent: The Querent\nParivartan: The Querent and Moon");
}

#[test]
fn anonymizing_agrees_with_replace_for_ordinary_names() {
    let prompts = [
        "Querent: Ravi Kumar\nQuestion: Will Ravi Kumar travel? Ravi Kumar asks.",
        "Ravi KumarRavi Kumar",
        "no name",
        "",
    ];
    for p in prompts {
        assert_eq!(anonymize_prompt(p, "Ravi Kumar", ""), p.replace("Ravi Kumar", "The Querent"));
        assert_eq!(anonymize_prompt(p, "Mia", " A"), format!("{} A", p).replace("Mia", "The Querent"));
    }
    // An empty name is replaced as `str::replace` does it.
    assert_eq!(anonymize_prompt("ab", "", "!"), format!("{}!", "ab".replace("", "The Querent")));
}

#[test]
fn reading_page_and_file() {
    let page = reading_html("Asha", "Good things.");
    let expected = format!(
        "<!DOCTYPE html>\n<html>\n<head>\n\
        <meta charset=\"UTF-8\">\n<title>Vedic Reading - {}</title>\n\
        <style>\n\
        body {{ font-family: system-ui, sans-serif; max-width: 800px; margin: 40px auto; line-height: 1.8; color: #333; padding: 20px; background-color: #fcfcfc; border-radius: 8px; box-shadow: 0 4px 12px rgba(0,0,0,0.1); }}\n\
        </style>\n</head>\n<body>\n\
        <h1>Vedic Reading for {}</h1>\n\
        <pre style=\"white-space: pre-wrap; font-family: inherit;\">{}</pre>\n\
        </body>\n</html>",
        "Asha", "Asha", "Good things."
    );
    assert_eq!(page, expected);
    let file = reading_file_name("Asha  Rao", "20240501_101010");
    assert_eq!(file, "Asha__Rao_20240501_101010.html");
    assert!(!file.contains(' '));
}

#[test]
fn client_table_layout() {
    assert_eq!(
        client_table_row("ID", "Name", "City", "Status", "DOB", "Time"),
        format!(
            "{:<4} | {:<20} | {:<12} | {:<10} | {:<10} | {:<8}",
            "ID", "Name", "City", "Status", "DOB", "Time"
        )
    );
    assert_eq!(
        client_table_row("12345", "Zoë Ångström-Øverby the Younger", "Pune", "Active", "N/A", "10:00 AM"),
        format!(
            "{:<4} | {:<20} | {:<12} | {:<10} | {:<10} | {:<8}",
            12345, "Zoë Ångström-Øverby the Younger", "Pune", "Active", "N/A", "10:00 AM"
        )
    );
    assert_eq!(repeat_char('-', 75), "-".repeat(75));
    assert_eq!(repeat_char('x', 0), "");
    assert_eq!(
        client_match_line("7", "Asha", Some("01/01/1990".to_string()), None, "Pune"),
        "[7] Asha - DOB: 01/01/1990 | Time: N/A | Place: Pune"
    );
}

#[test]
fn journal_texts() {
    assert_eq!(name_search_pattern("As"), "%As%");
    assert_eq!(display_or_na(None), "N/A");
    assert_eq!(display_or_na(Some("01/01/1990".to_string())), "01/01/1990");
    assert_eq!(edit_field_from_selection(0), EditField::Name);
    assert_eq!(edit_field_from_selection(1), EditField::City);
    assert_eq!(edit_field_from_selection(2), EditField::Status);
    assert_eq!(update_statement(EditField::Name), "UPDATE Clients SET name = ? WHERE id = ?");
    assert_eq!(update_statement(EditField::City), "UPDATE Clients SET city = ? WHERE id = ?");
    assert_eq!(update_statement(EditField::Status), "UPDATE Clients SET status = ? WHERE id = ?");
}

#[test]
fn the_only_match_is_taken_without_asking() {
    let row = |id: i64| ClientRow {
        id,
        name: "Asha".to_string(),
        dob: None,
        time: None,
        city: "Pune".to_string(),
        status: "Active".to_string(),
    };
    assert_eq!(pick_match(&vec![]), MatchPick::NoMatch);
    assert_eq!(pick_match(&vec![row(4)]), MatchPick::Only(4));
    assert_eq!(pick_match(&vec![row(4), row(5)]), MatchPick::Ask);
}
