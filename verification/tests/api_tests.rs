use astro_agent::api::{
    backoff_duration, build_request, choose_target_date, classify_status, clean_api_key,
    combine_prompts, exponential_cap_ms, fallback_date, gemini_url, rate_limited_error,
    response_text, retry_after_secs, retry_number_in_lowercase, retry_number_in_message, retry_step, server_error,
    target_date_prompt, try_choose_target_date, unexpected_status_error, usage_totals, Delay,
    GeminiCandidate, GeminiCandidateContent, GeminiCandidatePart, GeminiError,
    GeminiErrorBody, GeminiErrorEnvelope, GeminiResponse, GeminiUsageMetadata, RetryAction,
    StatusClass, BACKOFF_BASE_MS, BACKOFF_MAX_MS, MAX_RETRIES,
};

#[test]
fn exponential_cap_doubles_then_caps() {
    assert_eq!(exponential_cap_ms(0), 30_000);
    assert_eq!(exponential_cap_ms(1), 60_000);
    assert_eq!(exponential_cap_ms(2), 120_000);
    assert_eq!(exponential_cap_ms(9), 120_000);
    assert_eq!(exponential_cap_ms(63), 120_000);
    assert_eq!(exponential_cap_ms(64), 120_000);
    assert_eq!(exponential_cap_ms(u32::MAX), 120_000);
}

#[test]
fn backoff_prefers_message_then_header() {
    assert_eq!(backoff_duration(0, Some(10), Some(5)), Delay::Secs(7));
    assert_eq!(backoff_duration(3, Some(10), None), Delay::Secs(12));
    for attempt in 0..5u32 {
        for _ in 0..50 {
            match backoff_duration(attempt, None, None) {
                Delay::Millis(ms) => {
                    assert!(ms >= BACKOFF_BASE_MS);
                    assert!(ms <= exponential_cap_ms(attempt));
                }
                Delay::Secs(_) => panic!("a random wait is in milliseconds"),
            }
        }
    }
}

fn rate_limited() -> GeminiError {
    GeminiError::RateLimited { retry_after_secs: Some(1), message: Some("slow down".to_string()) }
}

#[test]
fn retry_step_decides() {
    match retry_step(0, Ok("text".to_string()), None) {
        RetryAction::Finish(Ok(t)) => assert_eq!(t, "text"),
        other => panic!("unexpected {:?}", other),
    }
    match retry_step(3, Err(rate_limited()), None) {
        RetryAction::Retry(d) => assert_eq!(d, Delay::Secs(3)),
        other => panic!("unexpected {:?}", other),
    }
    match retry_step(3, Err(rate_limited()), Some(40)) {
        RetryAction::Retry(d) => assert_eq!(d, Delay::Secs(42)),
        other => panic!("unexpected {:?}", other),
    }
    match retry_step(MAX_RETRIES - 1, Err(rate_limited()), None) {
        RetryAction::Finish(Err(GeminiError::RateLimited { retry_after_secs, message })) => {
            assert_eq!(retry_after_secs, Some(1));
            assert_eq!(message.as_deref(), Some("slow down"));
        },
        other => panic!("unexpected {:?}", other),
    }
    match retry_step(0, Err(GeminiError::ServerError("boom".to_string())), None) {
        RetryAction::Finish(Err(GeminiError::ServerError(m))) => assert_eq!(m, "boom"),
        other => panic!("unexpected {:?}", other),
    }
}

#[test]
fn retry_loop_stops_after_max_retries() {
    let mut attempts = 0u32;
    let mut finished = false;
    for attempt in 0..MAX_RETRIES {
        attempts += 1;
        let outcome = Err(GeminiError::RateLimited { retry_after_secs: None, message: None });
        match retry_step(attempt, outcome, None) {
            RetryAction::Finish(r) => {
                assert!(matches!(r, Err(GeminiError::RateLimited { .. })));
                finished = true;
                break;
            },
            RetryAction::Retry(Delay::Millis(ms)) => {
                assert!(ms >= BACKOFF_BASE_MS);
                assert!(ms <= BACKOFF_MAX_MS);
            }
            RetryAction::Retry(d) => panic!("unexpected {:?}", d),
        }
    }
    assert!(finished);
    assert_eq!(attempts, MAX_RETRIES);
}

#[test]
fn status_codes_are_classified() {
    assert_eq!(classify_status(200), StatusClass::Success);
    assert_eq!(classify_status(201), StatusClass::Unexpected);
    assert_eq!(classify_status(429), StatusClass::RateLimited);
    assert_eq!(classify_status(500), StatusClass::ServerError);
    assert_eq!(classify_status(599), StatusClass::ServerError);
    assert_eq!(classify_status(600), StatusClass::Unexpected);
    assert_eq!(classify_status(404), StatusClass::Unexpected);
}

#[test]
fn error_values() {
    match server_error(None) {
        GeminiError::ServerError(m) => assert_eq!(m, "unknown server error"),
        other => panic!("unexpected {:?}", other),
    }
    match server_error(Some("down".to_string())) {
        GeminiError::ServerError(m) => assert_eq!(m, "down"),
        other => panic!("unexpected {:?}", other),
    }
    match unexpected_status_error("404 Not Found", Some("missing".to_string())) {
        GeminiError::ServerError(m) => assert_eq!(m, "Unexpected status 404 Not Found: missing"),
        other => panic!("unexpected {:?}", other),
    }
    match unexpected_status_error("403 Forbidden", None) {
        GeminiError::ServerError(m) => assert_eq!(m, "Unexpected status 403 Forbidden: "),
        other => panic!("unexpected {:?}", other),
    }
    let body = GeminiErrorEnvelope {
        error: GeminiErrorBody {
            code: 429,
            message: "Please retry in 3s".to_string(),
            status: "RESOURCE_EXHAUSTED".to_string(),
        },
    };
    match rate_limited_error(Some(9), Some(body)) {
        GeminiError::RateLimited { retry_after_secs, message } => {
            assert_eq!(retry_after_secs, Some(9));
            assert_eq!(message.as_deref(), Some("Please retry in 3s"));
        },
        other => panic!("unexpected {:?}", other),
    }
    assert!(matches!(
        rate_limited_error(None, None),
        GeminiError::RateLimited { retry_after_secs: None, message: None }
    ));
}

#[test]
fn wait_is_read_from_the_message() {
    assert_eq!(retry_number_in_message("Please retry in 30s.").as_deref(), Some("30"));
    assert_eq!(retry_number_in_message("PLEASE RETRY IN 12.5S").as_deref(), Some("12.5"));
    assert_eq!(retry_number_in_message("retry in soon; retry after 7.5s").as_deref(), Some("7.5"));
    assert_eq!(retry_number_in_message("Retry After 12 seconds").as_deref(), Some("12"));
    assert_eq!(retry_number_in_message("retry in 1.2.3s").as_deref(), Some("1.2.3"));
    assert_eq!(retry_number_in_message("quota exceeded"), None);
    assert_eq!(retry_number_in_message("retry in x"), None);
    assert_eq!(retry_number_in_lowercase("RETRY IN 5s"), None);
    assert_eq!(retry_number_in_lowercase("then retry in 5s").as_deref(), Some("5"));
    assert_eq!(retry_number_in_message("RETRY İN 5s"), retry_number_in_lowercase(&"RETRY İN 5s".to_lowercase()));
}

#[test]
fn retry_after_header_is_a_number_of_seconds() {
    assert_eq!(retry_after_secs(Some("120")), Some(120));
    assert_eq!(retry_after_secs(Some("+5")), Some(5));
    assert_eq!(retry_after_secs(Some("Wed, 21 Oct 2015 07:28:00 GMT")), None);
    assert_eq!(retry_after_secs(None), None);
}

#[test]
fn request_parts() {
    assert_eq!(
        gemini_url("gemini-3.1-flash-lite", "k3y"),
        "https://generativelanguage.googleapis.com/v1beta/models/gemini-3.1-flash-lite:generateContent?key=k3y"
    );
    assert_eq!(clean_api_key(" \"abc\" \n"), "abc");
    assert_eq!(clean_api_key(""), "");
    assert_eq!(combine_prompts("sys", "user"), "sys\n\nuser");
    let req = build_request("sys", "user", 50, "Asha");
    assert_eq!(req.contents.len(), 1);
    assert_eq!(req.contents[0].role, "user");
    assert_eq!(req.contents[0].parts.len(), 1);
    assert_eq!(req.contents[0].parts[0].text, "sys\n\nuser");
    assert_eq!(req.generation_config.max_output_tokens, 50);
    assert_eq!(req.generation_config.temperature_per_mille, 0);
    let categories: Vec<&str> = req.safety_settings.iter().map(|s| s.category.as_str()).collect();
    assert_eq!(
        categories,
        vec![
            "HARM_CATEGORY_HARASSMENT",
            "HARM_CATEGORY_HATE_SPEECH",
            "HARM_CATEGORY_SEXUALLY_EXPLICIT",
            "HARM_CATEGORY_DANGEROUS_CONTENT",
        ]
    );
    assert!(req.safety_settings.iter().all(|s| s.threshold == "BLOCK_NONE"));
}

#[test]
fn a_request_never_carries_the_client_name() {
    let req = build_request("About Asha:", "Will Asha move?", 50, "Asha");
    assert_eq!(req.contents[0].parts[0].text, "About The Querent:\n\nWill The Querent move?");
    // The name split by the blank line between the two prompts is found too.
    let req = build_request("x", "y", 50, "x\n\ny");
    assert_eq!(req.contents[0].parts[0].text, "The Querent");
    let req = build_request("sys", "user", 50, "");
    assert_eq!(req.contents[0].parts[0].text, "sys\n\nuser");
}

#[test]
fn the_first_wait_after_a_rate_limit_is_thirty_seconds() {
    for _ in 0..20 {
        assert_eq!(backoff_duration(0, None, None), Delay::Millis(30_000));
    }
}

#[test]
fn errors_are_described_as_shown_to_the_user() {
    let e = GeminiError::RateLimited {
        retry_after_secs: Some(30),
        message: Some("Retry in \"5s\"".to_string()),
    };
    assert_eq!(e.describe(), format!("Rate limited (retry_after={:?}s, message={:?})", Some(30u64), Some("Retry in \"5s\"")));
    assert_eq!(
        e.describe(),
        "Rate limited (retry_after=Some(30)s, message=Some(\"Retry in \\\"5s\\\"\"))"
    );
    let e = GeminiError::RateLimited { retry_after_secs: None, message: Some("it's\n".to_string()) };
    assert_eq!(e.describe(), "Rate limited (retry_after=Nones, message=Some(\"it's\\n\"))");
    let e = GeminiError::RateLimited { retry_after_secs: None, message: None };
    assert_eq!(e.describe(), "Rate limited (retry_after=Nones, message=None)");
    assert_eq!(GeminiError::ServerError("boom".to_string()).describe(), "Server error: boom");
    assert_eq!(GeminiError::RequestFailed("timeout".to_string()).describe(), "Request failed: timeout");
    assert_eq!(GeminiError::ParseError("Empty candidates".to_string()).describe(), "Parse error: Empty candidates");
}

fn reply(parts: Vec<Vec<&str>>) -> GeminiResponse {
    GeminiResponse {
        candidates: Some(
            parts
                .into_iter()
                .map(|ps| GeminiCandidate {
                    content: GeminiCandidateContent {
                        parts: ps
                            .into_iter()
                            .map(|t| GeminiCandidatePart { text: t.to_string() })
                            .collect(),
                    },
                })
                .collect(),
        ),
        usage_metadata: None,
    }
}

#[test]
fn the_answer_is_the_first_part_of_the_first_candidate() {
    match response_text(reply(vec![vec!["first", "second"], vec!["other"]])) {
        Ok(t) => assert_eq!(t, "first"),
        Err(e) => panic!("unexpected {:?}", e),
    }
    for empty in [
        reply(vec![]),
        reply(vec![vec![], vec!["later"]]),
        GeminiResponse { candidates: None, usage_metadata: None },
    ] {
        match response_text(empty) {
            Err(GeminiError::ParseError(m)) => assert_eq!(m, "Empty candidates"),
            other => panic!("unexpected {:?}", other),
        }
    }
}

#[test]
fn usage_totals_fill_in_the_sum() {
    let u = GeminiUsageMetadata {
        prompt_token_count: Some(10),
        candidates_token_count: None,
        total_token_count: None,
    };
    assert_eq!(usage_totals(&u), (10, 0, 10));
    let u = GeminiUsageMetadata {
        prompt_token_count: Some(10),
        candidates_token_count: Some(5),
        total_token_count: Some(99),
    };
    assert_eq!(usage_totals(&u), (10, 5, 99));
}

#[test]
fn fallback_date_is_a_year_later() {
    assert_eq!(fallback_date("2024-03-15"), "2025-03-15");
    assert_eq!(fallback_date("2024-02-29"), "2030-01-01");
    assert_eq!(fallback_date("2023-02-28"), "2024-02-28");
    assert_eq!(fallback_date("garbage"), "2030-01-01");
    assert_eq!(fallback_date("9999-01-01"), "+10000-01-01");
}

#[test]
fn target_date_comes_from_the_answer() {
    assert_eq!(
        target_date_prompt("2024-01-01", "When?", "Asha"),
        "Current Date: 2024-01-01\nQuestion: When?"
    );
    assert_eq!(
        target_date_prompt("2024-01-01", "Will Ann marry?", "Ann"),
        "Current Date: 2024-01-01\nQuestion: Will The Querent marry?"
    );
    assert!(!target_date_prompt("2024-01-01", "Will Ann marry?", "Ann").contains("Ann"));
    assert_eq!(choose_target_date(Some("  2025-06-01 because"), "2024-01-01"), "2025-06-01");
    assert_eq!(choose_target_date(Some("next summer!"), "2024-01-01"), "2025-01-01");
    assert_eq!(choose_target_date(Some("2025"), "2024-01-01"), "2025-01-01");
    assert_eq!(choose_target_date(None, "2024-01-01"), "2025-01-01");
    assert_eq!(try_choose_target_date(Some("2025-06-0é"), "2024-01-01"), None);
    assert_eq!(
        try_choose_target_date(Some("2025-06-01é"), "2024-01-01").as_deref(),
        Some("2025-06-01")
    );
}
