use polarizer::telemetry::{equals_ignore_ascii_case, log_format, LogFormat};

#[test]
fn json_format_is_selected_case_insensitively() {
    assert_eq!(log_format(Some("json")), LogFormat::Json);
    assert_eq!(log_format(Some("JSON")), LogFormat::Json);
    assert_eq!(log_format(Some("Json")), LogFormat::Json);
    assert_eq!(log_format(Some("pretty")), LogFormat::Pretty);
    assert_eq!(log_format(Some("json ")), LogFormat::Pretty);
    assert_eq!(log_format(Some("")), LogFormat::Pretty);
    assert_eq!(log_format(None), LogFormat::Pretty);
}

#[test]
fn ignore_case_comparison_matches_std() {
    for (a, b) in [("abc", "ABC"), ("aBc", "AbC"), ("Straße", "STRAßE"), ("ä", "Ä"), ("a", "ab"), ("", "")] {
        assert_eq!(equals_ignore_ascii_case(a, b), a.eq_ignore_ascii_case(b), "{a:?} vs {b:?}");
    }
}
