use settings_store::settings::{SettingsDocument, Theme};
use settings_store::store::load_settings;

fn default_document() -> SettingsDocument {
    SettingsDocument {
        theme: Theme {
            background_color: "#1E3E62".to_string(),
            text_color: "#FF6500".to_string(),
        },
        timezone: None,
        show_seconds: true,
    }
}

#[test]
fn missing_file_gives_the_default_document() {
    assert_eq!(load_settings(None), Ok(default_document()));
    assert_eq!(load_settings(None), load_settings(None));
}

#[test]
fn default_document_has_the_fixed_values() {
    let doc = SettingsDocument::default();
    assert_eq!(doc.theme.background_color, "#1E3E62");
    assert_eq!(doc.theme.text_color, "#FF6500");
    assert_eq!(doc.timezone, None);
    assert!(doc.show_seconds);
    assert_eq!(doc, default_document());
    assert_eq!(Theme::default(), default_document().theme);
}

#[test]
fn matching_file_is_returned_as_it_stands() {
    let text = r##"{
  "theme": { "background_color": "#000000", "text_color": "#ffffff" },
  "timezone": "Europe/Paris",
  "show_seconds": false
}"##;
    let expected = SettingsDocument {
        theme: Theme {
            background_color: "#000000".to_string(),
            text_color: "#ffffff".to_string(),
        },
        timezone: Some("Europe/Paris".to_string()),
        show_seconds: false,
    };
    assert_eq!(load_settings(Some(text)), Ok(expected));
}

#[test]
fn matching_file_with_null_timezone() {
    let text = r#"{"theme":{"background_color":"a","text_color":"b"},"timezone":null,"show_seconds":false}"#;
    let doc = load_settings(Some(text)).unwrap();
    assert_eq!(doc.timezone, None);
    assert!(!doc.show_seconds);
    assert_eq!(doc.theme.background_color, "a");
    assert_eq!(doc.theme.text_color, "b");
}

#[test]
fn matching_file_without_timezone() {
    let text = r#"{"show_seconds":false,"theme":{"text_color":"b","background_color":"a"}}"#;
    let doc = load_settings(Some(text)).unwrap();
    assert_eq!(doc.timezone, None);
    assert!(!doc.show_seconds);
    assert_eq!(doc.theme.background_color, "a");
    assert_eq!(doc.theme.text_color, "b");
}

#[test]
fn members_outside_the_schema_are_passed_over() {
    let text = r#"{"theme":{"background_color":"a","text_color":"b","accent":"c"},"show_seconds":false,"version":3,"extra":[1,{"x":null}]}"#;
    let doc = load_settings(Some(text)).unwrap();
    assert!(!doc.show_seconds);
    assert_eq!(doc.theme.background_color, "a");
    assert_eq!(doc.theme.text_color, "b");
    assert_eq!(doc.timezone, None);
}

#[test]
fn timezone_alone_is_recovered() {
    let doc = load_settings(Some(r#"{"timezone": "UTC"}"#)).unwrap();
    assert_eq!(doc.theme, default_document().theme);
    assert_eq!(doc.timezone, Some("UTC".to_string()));
    assert!(doc.show_seconds);
}

#[test]
fn half_a_theme_gives_the_whole_default_theme() {
    let doc = load_settings(Some(r##"{"theme": {"background_color": "#000000"}}"##)).unwrap();
    assert_eq!(doc.theme.background_color, "#1E3E62");
    assert_eq!(doc.theme.text_color, "#FF6500");
    assert_eq!(doc, default_document());
}

#[test]
fn theme_with_a_colour_of_the_wrong_type_gives_the_default_theme() {
    let text = r##"{"theme": {"background_color": "#000000", "text_color": 7}, "show_seconds": false}"##;
    let doc = load_settings(Some(text)).unwrap();
    assert_eq!(doc, default_document());
}

#[test]
fn whole_theme_is_recovered() {
    let text = r##"{"theme": {"background_color": "#000000", "text_color": "#111111"}, "timezone": "Asia/Tokyo"}"##;
    let doc = load_settings(Some(text)).unwrap();
    assert_eq!(doc.theme.background_color, "#000000");
    assert_eq!(doc.theme.text_color, "#111111");
    assert_eq!(doc.timezone, Some("Asia/Tokyo".to_string()));
    assert!(doc.show_seconds);
}

#[test]
fn garbage_is_an_error() {
    assert_eq!(
        load_settings(Some("not json at all")),
        Err("Failed to parse settings JSON".to_string())
    );
}

#[test]
fn empty_and_cut_off_texts_are_errors() {
    for text in ["", "   ", "{", r#"{"timezone": "UTC""#, r#"{"a": 1} trailing"#] {
        assert_eq!(
            load_settings(Some(text)),
            Err("Failed to parse settings JSON".to_string())
        );
    }
}

#[test]
fn show_seconds_is_not_recovered() {
    let doc = load_settings(Some(r#"{"show_seconds": false, "badfield": 1}"#)).unwrap();
    assert!(doc.show_seconds);
    assert_eq!(doc, default_document());
}

#[test]
fn timezone_of_the_wrong_type_sends_the_file_to_recovery() {
    let text = r#"{"theme":{"background_color":"a","text_color":"b"},"timezone":5,"show_seconds":false}"#;
    let doc = load_settings(Some(text)).unwrap();
    assert_eq!(doc.theme.background_color, "a");
    assert_eq!(doc.theme.text_color, "b");
    assert_eq!(doc.timezone, None);
    assert!(doc.show_seconds);
}

#[test]
fn show_seconds_of_the_wrong_type_sends_the_file_to_recovery() {
    let text = r#"{"theme":{"background_color":"a","text_color":"b"},"timezone":"UTC","show_seconds":"no"}"#;
    let doc = load_settings(Some(text)).unwrap();
    assert_eq!(doc.theme.background_color, "a");
    assert_eq!(doc.timezone, Some("UTC".to_string()));
    assert!(doc.show_seconds);
}

#[test]
fn json_that_is_no_object_gives_the_default_document() {
    for text in ["null", "42", "\"text\"", "[1, 2, 3]", "true"] {
        assert_eq!(load_settings(Some(text)), Ok(default_document()));
    }
}
