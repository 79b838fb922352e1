use astro_agent::utils::sanitize_filename;

#[test]
fn test_sanitize_filename() {
    assert_eq!(sanitize_filename("John Doe"), "John_Doe");
    assert_eq!(sanitize_filename("user@name!"), "user_name_");
    assert_eq!(sanitize_filename("123 test"), "123_test");
}

#[test]
fn sanitize_keeps_unicode_letters_and_digits() {
    assert_eq!(sanitize_filename("Zoë Ånn-٣"), "Zoë_Ånn_٣");
    assert_eq!(sanitize_filename(""), "");
    assert_eq!(sanitize_filename("a\u{3000}b"), "a_b");
}

#[test]
fn sanitize_is_idempotent_and_keeps_length() {
    for input in ["John Doe", "user@name!", "über/straße 12", "__", "a.b.c"] {
        let once = sanitize_filename(input);
        assert_eq!(sanitize_filename(&once), once);
        assert_eq!(once.chars().count(), input.chars().count());
        assert!(once.chars().all(|c| c.is_alphanumeric() || c == '_'));
    }
}
