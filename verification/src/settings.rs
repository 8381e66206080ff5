//! The settings document and its JSON schema.
//!
//! ```json
//! {
//!   "theme": { "background_color": "<string>", "text_color": "<string>" },
//!   "timezone": "<string>",
//!   "show_seconds": <boolean>
//! }
//! ```
//!
//! A document without a timezone is written without the member `timezone`.
//! On reading, a `timezone` that is `null` counts as none too.

use crate::json::{
    lemma_first_member_absent, lemma_first_member_found, lemma_object_view, Json, JsonValue,
};
use vstd::prelude::*;

verus! {

/// The two colours of the interface. Both are opaque strings: no format is
/// checked.
#[derive(Clone, Debug, PartialEq, Eq)]
pub struct Theme {
    pub background_color: String,
    pub text_color: String,
}

/// The persisted preferences.
#[derive(Clone, Debug, PartialEq, Eq)]
pub struct SettingsDocument {
    pub theme: Theme,
    /// `None` stands for the system's timezone.
    pub timezone: Option<String>,
    pub show_seconds: bool,
}

/// The mathematical value of a [`Theme`].
pub struct ThemeView {
    pub background_color: Seq<char>,
    pub text_color: Seq<char>,
}

/// The mathematical value of a [`SettingsDocument`].
pub struct SettingsView {
    pub theme: ThemeView,
    pub timezone: Option<Seq<char>>,
    pub show_seconds: bool,
}

impl View for Theme {
    type V = ThemeView;

    open spec fn view(&self) -> ThemeView {
        ThemeView { background_color: self.background_color@, text_color: self.text_color@ }
    }
}

impl View for SettingsDocument {
    type V = SettingsView;

    open spec fn view(&self) -> SettingsView {
        SettingsView {
            theme: self.theme@,
            timezone: optional_text(self.timezone),
            show_seconds: self.show_seconds,
        }
    }
}

/// The document that the fields of a save make up.
pub open spec fn document_of(
    background_color: Seq<char>,
    text_color: Seq<char>,
    timezone: Option<Seq<char>>,
    show_seconds: bool,
) -> SettingsView {
    SettingsView { theme: ThemeView { background_color, text_color }, timezone, show_seconds }
}

/// The view of an optional string.
pub open spec fn optional_text(text: Option<String>) -> Option<Seq<char>> {
    match text {
        Some(text) => Some(text@),
        None => None,
    }
}

/// The theme of a document that was never saved.
pub open spec fn default_theme() -> ThemeView {
    ThemeView { background_color: "#1E3E62"@, text_color: "#FF6500"@ }
}

/// The document that stands for a file that was never saved.
pub open spec fn default_settings() -> SettingsView {
    SettingsView { theme: default_theme(), timezone: None, show_seconds: true }
}

/// The JSON value that a theme is written as.
pub open spec fn theme_tree(theme: ThemeView) -> JsonValue {
    JsonValue::Object(
        seq![
            ("background_color"@, JsonValue::Str(theme.background_color)),
            ("text_color"@, JsonValue::Str(theme.text_color)),
        ],
    )
}

/// The JSON value that a document is written as: the theme, the timezone
/// where there is one, and `show_seconds`, in this order. A document
/// without a timezone is written without the member `timezone`.
pub open spec fn document_tree(doc: SettingsView) -> JsonValue {
    match doc.timezone {
        Some(zone) => JsonValue::Object(
            seq![
                ("theme"@, theme_tree(doc.theme)),
                ("timezone"@, JsonValue::Str(zone)),
                ("show_seconds"@, JsonValue::Bool(doc.show_seconds)),
            ],
        ),
        None => JsonValue::Object(
            seq![
                ("theme"@, theme_tree(doc.theme)),
                ("show_seconds"@, JsonValue::Bool(doc.show_seconds)),
            ],
        ),
    }
}

/// The theme that a JSON value holds: both colours are there and are
/// strings, or there is no theme at all.
pub open spec fn theme_in(tree: JsonValue) -> Option<ThemeView> {
    match (tree.get("background_color"@), tree.get("text_color"@)) {
        (Some(JsonValue::Str(background_color)), Some(JsonValue::Str(text_color))) => Some(
            ThemeView { background_color, text_color },
        ),
        _ => None,
    }
}

/// The document that a JSON value is, where it matches the schema: an object
/// with a theme, with a boolean `show_seconds`, and with a `timezone` that is
/// a string, `null` or absent. Members that the schema does not name are
/// passed over.
///
/// A JSON value has one member for each key. A text in which a key of the
/// schema stands twice has been read as a value with the later of the two
/// by the time it comes here, and is judged by that one: the repetition
/// itself is not seen, and is no mismatch.
pub open spec fn strict_document(tree: JsonValue) -> Option<SettingsView> {
    match (tree.get("theme"@), tree.get("timezone"@), tree.get("show_seconds"@)) {
        (Some(theme), zone, Some(JsonValue::Bool(show_seconds))) => match (theme_in(theme), zone) {
            (Some(theme), None) | (Some(theme), Some(JsonValue::Null)) => Some(
                SettingsView { theme, timezone: None, show_seconds },
            ),
            (Some(theme), Some(JsonValue::Str(zone))) => Some(
                SettingsView { theme, timezone: Some(zone), show_seconds },
            ),
            _ => None,
        },
        _ => None,
    }
}

/// The document that is read out of a JSON value that does not match the
/// schema. The theme is taken whole or not at all, the timezone is taken
/// where it is a string, and `show_seconds` is not read: it is `true`.
pub open spec fn recovered_document(tree: JsonValue) -> SettingsView {
    SettingsView {
        theme: match tree.get("theme"@) {
            Some(theme) => match theme_in(theme) {
                Some(theme) => theme,
                None => default_theme(),
            },
            None => default_theme(),
        },
        timezone: match tree.get("timezone"@) {
            Some(JsonValue::Str(zone)) => Some(zone),
            _ => None,
        },
        show_seconds: true,
    }
}

/// The document that a JSON value is read as: as it stands where it matches
/// the schema, and field by field where it does not.
pub open spec fn read_document(tree: JsonValue) -> SettingsView {
    match strict_document(tree) {
        Some(doc) => doc,
        None => recovered_document(tree),
    }
}

/// The keys of the schema differ from one another where they stand in one
/// object.
proof fn lemma_keys_differ()
    ensures
        "theme"@ != "timezone"@,
        "theme"@ != "show_seconds"@,
        "timezone"@ != "show_seconds"@,
        "background_color"@ != "text_color"@,
{
    reveal_strlit("theme");
    reveal_strlit("timezone");
    reveal_strlit("show_seconds");
    reveal_strlit("background_color");
    reveal_strlit("text_color");
    assert("theme"@.len() == 5);
    assert("timezone"@.len() == 8);
    assert("show_seconds"@.len() == 12);
    assert("background_color"@.len() == 16);
    assert("text_color"@.len() == 10);
}

/// No key occurs twice in the JSON value that a document is written as.
pub proof fn lemma_document_tree_keys_distinct(doc: SettingsView)
    ensures
        document_tree(doc).keys_distinct(),
{
    lemma_keys_differ();
    reveal_with_fuel(JsonValue::keys_distinct, 3);
}

/// The written value has a member `timezone` exactly where the document
/// has a timezone, and then it is that string: nothing stands in for a
/// timezone that is not there.
pub proof fn lemma_timezone_member(doc: SettingsView)
    ensures
        document_tree(doc).get("timezone"@) == match doc.timezone {
            Some(zone) => Some(JsonValue::Str(zone)),
            None => None,
        },
{
    lemma_keys_differ();
    let members = document_tree(doc)->Object_0;
    if doc.timezone is Some {
        lemma_first_member_found(members, "timezone"@, 1);
    } else {
        lemma_first_member_absent(members, "timezone"@);
    }
}

/// The JSON value that a document is written as matches the schema, and is
/// read back as that document: every string and both booleans come back as
/// they went in, and so does the want of a timezone.
pub proof fn lemma_written_document_reads_back(doc: SettingsView)
    ensures
        strict_document(document_tree(doc)) == Some(doc),
        read_document(document_tree(doc)) == doc,
{
    lemma_keys_differ();
    let members = document_tree(doc)->Object_0;
    lemma_first_member_found(members, "theme"@, 0);
    if doc.timezone is Some {
        lemma_first_member_found(members, "timezone"@, 1);
        lemma_first_member_found(members, "show_seconds"@, 2);
    } else {
        lemma_first_member_absent(members, "timezone"@);
        lemma_first_member_found(members, "show_seconds"@, 1);
    }
    let colours = theme_tree(doc.theme)->Object_0;
    lemma_first_member_found(colours, "background_color"@, 0);
    lemma_first_member_found(colours, "text_color"@, 1);
}

impl Theme {
    /// Reads a theme out of a JSON value: both colours or nothing.
    pub fn from_json(tree: &Json) -> (r: Option<Theme>)
        ensures
            match r {
                Some(theme) => theme_in(tree@) == Some(theme@),
                None => theme_in(tree@) is None,
            },
    {
        let background_color = tree.get("background_color")?.as_str()?;
        let text_color = tree.get("text_color")?.as_str()?;
        Some(
            Theme {
                background_color: background_color.to_owned(),
                text_color: text_color.to_owned(),
            },
        )
    }

    /// Writes the theme as a JSON object.
    pub fn to_json(&self) -> (r: Json)
        ensures
            r@ == theme_tree(self@),
    {
        let members = vec![
            ("background_color".to_owned(), Json::Str(self.background_color.clone())),
            ("text_color".to_owned(), Json::Str(self.text_color.clone())),
        ];
        proof {
            lemma_object_view(members);
            assert(Json::Object(members)@->Object_0 =~= theme_tree(self@)->Object_0);
        }
        Json::Object(members)
    }
}

impl Default for Theme {
    fn default() -> (r: Theme)
        ensures
            r@ == default_theme(),
    {
        Theme { background_color: "#1E3E62".to_owned(), text_color: "#FF6500".to_owned() }
    }
}

impl SettingsDocument {
    /// Puts a document together. No field is checked.
    pub fn new(
        background_color: String,
        text_color: String,
        timezone: Option<String>,
        show_seconds: bool,
    ) -> (r: SettingsDocument)
        ensures
            r@ == document_of(
                background_color@,
                text_color@,
                optional_text(timezone),
                show_seconds,
            ),
    {
        SettingsDocument { theme: Theme { background_color, text_color }, timezone, show_seconds }
    }

    /// Whether two documents are the same: both colours, the timezone and
    /// `show_seconds`.
    pub fn same_as(&self, other: &SettingsDocument) -> (r: bool)
        ensures
            r == (self@ == other@),
    {
        let same_zone = match (&self.timezone, &other.timezone) {
            (Some(mine), Some(theirs)) => *mine == *theirs,
            (None, None) => true,
            _ => false,
        };
        same_zone && self.theme.background_color == other.theme.background_color
            && self.theme.text_color == other.theme.text_color && self.show_seconds
            == other.show_seconds
    }

    /// Writes the document as a JSON object, with the member `timezone`
    /// only where there is a timezone.
    pub fn to_json(&self) -> (r: Json)
        ensures
            r@ == document_tree(self@),
            self.timezone is None ==> r@.get("timezone"@) is None,
    {
        proof {
            lemma_timezone_member(self@);
        }
        let mut members: Vec<(String, Json)> = Vec::new();
        members.push(("theme".to_owned(), self.theme.to_json()));
        match &self.timezone {
            Some(zone) => {
                members.push(("timezone".to_owned(), Json::Str(zone.clone())));
            },
            None => {},
        }
        members.push(("show_seconds".to_owned(), Json::Bool(self.show_seconds)));
        proof {
            lemma_object_view(members);
            assert(Json::Object(members)@->Object_0 =~= document_tree(self@)->Object_0);
        }
        Json::Object(members)
    }

    /// Reads a JSON value that matches the schema.
    ///
    /// The value is judged as it stands. Where a key stood twice in the text
    /// that it was read from, the value holds the later member only, and the
    /// repetition is not held against it.
    pub fn from_json(tree: &Json) -> (r: Option<SettingsDocument>)
        ensures
            match r {
                Some(doc) => strict_document(tree@) == Some(doc@),
                None => strict_document(tree@) is None,
            },
    {
        let theme = Theme::from_json(tree.get("theme")?)?;
        let show_seconds = tree.get("show_seconds")?.as_bool()?;
        let timezone = match tree.get("timezone") {
            None => None,
            Some(zone) => if zone.is_null() {
                None
            } else {
                Some(zone.as_str()?.to_owned())
            },
        };
        Some(SettingsDocument { theme, timezone, show_seconds })
    }

    /// Reads a JSON value as a document, to the letter where it matches the
    /// schema and field by field where it does not.
    pub fn read(tree: &Json) -> (r: SettingsDocument)
        ensures
            r@ == read_document(tree@),
    {
        match SettingsDocument::from_json(tree) {
            Some(doc) => doc,
            None => SettingsDocument::recover(tree),
        }
    }

    /// Reads what can be read out of a JSON value that does not match the
    /// schema.
    pub fn recover(tree: &Json) -> (r: SettingsDocument)
        ensures
            r@ == recovered_document(tree@),
            r@.show_seconds,
            r@.theme == default_theme() || (tree@.get("theme"@) matches Some(theme) && theme_in(
                theme,
            ) == Some(r@.theme)),
    {
        let theme = match tree.get("theme") {
            Some(theme) => match Theme::from_json(theme) {
                Some(theme) => theme,
                None => Theme::default(),
            },
            None => Theme::default(),
        };
        let timezone = match tree.get("timezone") {
            Some(zone) => match zone.as_str() {
                Some(zone) => Some(zone.to_owned()),
                None => None,
            },
            None => None,
        };
        SettingsDocument { theme, timezone, show_seconds: true }
    }
}

impl Default for SettingsDocument {
    fn default() -> (r: SettingsDocument)
        ensures
            r@ == default_settings(),
    {
        SettingsDocument { theme: Theme::default(), timezone: None, show_seconds: true }
    }
}

} // verus!
