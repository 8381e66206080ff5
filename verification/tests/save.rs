use settings_store::settings::{SettingsDocument, Theme};
use settings_store::store::{
    load_settings, save_settings, save_settings_checked, text_from_render, Failure, SETTINGS_FILE,
};

#[test]
fn saved_text_is_pretty_printed_json() {
    let text = save_settings(
        "#1E3E62".to_string(),
        "#FF6500".to_string(),
        Some("UTC".to_string()),
        true,
    )
    .unwrap();
    let expected = "{\n  \"theme\": {\n    \"background_color\": \"#1E3E62\",\n    \"text_color\": \"#FF6500\"\n  },\n  \"timezone\": \"UTC\",\n  \"show_seconds\": true\n}";
    assert_eq!(text, expected);
}

#[test]
fn absent_timezone_is_left_out() {
    let text = save_settings("a".to_string(), "b".to_string(), None, false).unwrap();
    let expected = "{\n  \"theme\": {\n    \"background_color\": \"a\",\n    \"text_color\": \"b\"\n  },\n  \"show_seconds\": false\n}";
    assert_eq!(text, expected);
    assert!(!text.contains("timezone"));
    assert!(!text.contains("null"));
}

#[test]
fn empty_timezone_is_written_as_an_empty_string() {
    let text = save_settings("a".to_string(), "b".to_string(), Some(String::new()), true).unwrap();
    assert!(text.contains("\"timezone\": \"\""));
}

#[test]
fn strings_are_escaped() {
    let text = save_settings("a\"b".to_string(), "c\\d\n".to_string(), None, true).unwrap();
    assert!(text.contains(r#""background_color": "a\"b""#));
    assert!(text.contains(r#""text_color": "c\\d\n""#));
}

fn round_trip(background_color: &str, text_color: &str, timezone: Option<&str>, show_seconds: bool) {
    let text = save_settings(
        background_color.to_string(),
        text_color.to_string(),
        timezone.map(|zone| zone.to_string()),
        show_seconds,
    )
    .unwrap();
    let expected = SettingsDocument {
        theme: Theme {
            background_color: background_color.to_string(),
            text_color: text_color.to_string(),
        },
        timezone: timezone.map(|zone| zone.to_string()),
        show_seconds,
    };
    assert_eq!(load_settings(Some(&text)), Ok(expected));
}

#[test]
fn saved_document_loads_as_it_was() {
    round_trip("#1E3E62", "#FF6500", None, true);
    round_trip("#000000", "#ffffff", Some("Europe/Paris"), false);
    round_trip("", "", Some(""), true);
    round_trip("", "", None, false);
}

#[test]
fn saved_document_with_odd_strings_loads_as_it_was() {
    round_trip("a\"b\\c", "line\nbreak\ttab\r", Some("\u{0}\u{1f}\u{7f}"), false);
    round_trip("héllo wörld", "日本語 🎨", Some("{\"theme\": null}"), true);
    round_trip("null", "true", Some("not json at all"), false);
    round_trip("\u{2028}\u{2029}", "\u{feff}/\u{fffd}", Some("'"), true);
}

#[test]
fn show_seconds_false_survives_a_round_trip() {
    let text = save_settings("x".to_string(), "y".to_string(), None, false).unwrap();
    assert!(!load_settings(Some(&text)).unwrap().show_seconds);
}

#[test]
fn failures_have_their_messages() {
    assert_eq!(Failure::ConfigDir.message(), "Failed to get app config directory");
    assert_eq!(
        Failure::CreateDir("denied".to_string()).message(),
        "Failed to create config directory: denied"
    );
    assert_eq!(
        Failure::Serialize("key must be a string".to_string()).message(),
        "Failed to serialize settings: key must be a string"
    );
    assert_eq!(
        Failure::Write("disk full".to_string()).message(),
        "Failed to write settings file: disk full"
    );
    assert_eq!(
        Failure::Read("denied".to_string()).message(),
        "Failed to read settings file: denied"
    );
    assert_eq!(Failure::Parse.message(), "Failed to parse settings JSON");
    assert_eq!(Failure::Write(String::new()).message(), "Failed to write settings file: ");
}

#[test]
fn checked_save_returns_the_text_that_save_returns() {
    let cases = [
        ("#1E3E62", "#FF6500", None, true),
        ("#000000", "#ffffff", Some("Europe/Paris"), false),
        ("", "", Some(""), true),
        ("a\"b\\c", "line\nbreak", Some("\u{0}\u{1f}"), false),
        ("日本語", "🎨", Some("null"), true),
    ];
    for (background_color, text_color, timezone, show_seconds) in cases {
        let checked = save_settings_checked(
            background_color.to_string(),
            text_color.to_string(),
            timezone.map(|zone| zone.to_string()),
            show_seconds,
        );
        let plain = save_settings(
            background_color.to_string(),
            text_color.to_string(),
            timezone.map(|zone| zone.to_string()),
            show_seconds,
        );
        assert_eq!(checked, plain.ok());
        let text = checked.unwrap();
        let loaded = load_settings(Some(&text)).unwrap();
        assert_eq!(loaded.theme.background_color, background_color);
        assert_eq!(loaded.theme.text_color, text_color);
        assert_eq!(loaded.timezone, timezone.map(|zone| zone.to_string()));
        assert_eq!(loaded.show_seconds, show_seconds);
    }
}

#[test]
fn documents_are_compared_field_by_field() {
    let doc = SettingsDocument::new("a".to_string(), "b".to_string(), Some("UTC".to_string()), true);
    assert!(doc.same_as(&doc.clone()));
    let mut other = doc.clone();
    other.theme.background_color = "x".to_string();
    assert!(!doc.same_as(&other));
    let mut other = doc.clone();
    other.theme.text_color = "x".to_string();
    assert!(!doc.same_as(&other));
    let mut other = doc.clone();
    other.timezone = None;
    assert!(!doc.same_as(&other));
    assert!(!other.same_as(&doc));
    assert!(other.same_as(&other.clone()));
    let mut other = doc.clone();
    other.timezone = Some("utc".to_string());
    assert!(!doc.same_as(&other));
    let mut other = doc.clone();
    other.show_seconds = false;
    assert!(!doc.same_as(&other));
}

#[test]
fn save_is_decided_by_what_was_rendered() {
    assert_eq!(text_from_render(Ok("{}".to_string())), Ok("{}".to_string()));
    assert_eq!(text_from_render(Ok(String::new())), Ok(String::new()));
    assert_eq!(
        text_from_render(Err("key must be a string".to_string())),
        Err("Failed to serialize settings: key must be a string".to_string())
    );
    assert_eq!(
        text_from_render(Err(String::new())),
        Err("Failed to serialize settings: ".to_string())
    );
}

#[test]
fn settings_file_has_its_name() {
    assert_eq!(SETTINGS_FILE, "settings.json");
}
