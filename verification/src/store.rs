//! Saving and loading: from the fields of a document to the text of the
//! settings file, and from what the file held back to a document.
//!
//! The file itself is the caller's: it writes the text that
//! [`save_settings`] returns, and hands [`load_settings`] the text it read,
//! or `None` where there is no file. [`save_settings_checked`] is for the
//! caller who wants to know, before writing, that the text loads as the
//! document that was saved.

use crate::json::{Json, JsonValue};
use crate::json_text::{parse, parsed_json, pretty_json, render};
use crate::settings::{
    default_settings, document_of, document_tree, lemma_document_tree_keys_distinct,
    lemma_written_document_reads_back, optional_text, read_document, SettingsDocument,
    SettingsView,
};
use vstd::prelude::*;

verus! {

/// The name of the settings file inside the configuration directory.
pub const SETTINGS_FILE: &'static str = "settings.json";

/// What can go wrong while saving or loading. Those that carry a reason hold
/// the words of the failed step.
#[derive(Clone, Debug, PartialEq, Eq)]
pub enum Failure {
    /// The configuration directory is not known.
    ConfigDir,
    /// The configuration directory could not be created.
    CreateDir(String),
    /// The document could not be written as JSON.
    Serialize(String),
    /// The settings file could not be written.
    Write(String),
    /// The settings file could not be read.
    Read(String),
    /// The settings file does not hold JSON.
    Parse,
}

impl Failure {
    /// The message that reports the failure.
    pub open spec fn text(self) -> Seq<char> {
        match self {
            Failure::ConfigDir => "Failed to get app config directory"@,
            Failure::CreateDir(reason) => "Failed to create config directory: "@ + reason@,
            Failure::Serialize(reason) => "Failed to serialize settings: "@ + reason@,
            Failure::Write(reason) => "Failed to write settings file: "@ + reason@,
            Failure::Read(reason) => "Failed to read settings file: "@ + reason@,
            Failure::Parse => "Failed to parse settings JSON"@,
        }
    }

    /// The message that reports the failure.
    pub fn message(&self) -> (r: String)
        ensures
            r@ == self.text(),
    {
        match self {
            Failure::ConfigDir => "Failed to get app config directory".to_owned(),
            Failure::CreateDir(reason) => "Failed to create config directory: ".to_owned().concat(
                reason.as_str(),
            ),
            Failure::Serialize(reason) => "Failed to serialize settings: ".to_owned().concat(
                reason.as_str(),
            ),
            Failure::Write(reason) => "Failed to write settings file: ".to_owned().concat(
                reason.as_str(),
            ),
            Failure::Read(reason) => "Failed to read settings file: ".to_owned().concat(
                reason.as_str(),
            ),
            Failure::Parse => "Failed to parse settings JSON".to_owned(),
        }
    }
}

/// What a load returns for a settings file whose text was read as `parsed`:
/// `None` says that the text is not JSON.
pub open spec fn parsed_outcome(parsed: Option<JsonValue>) -> Result<SettingsView, Seq<char>> {
    match parsed {
        Some(tree) => Ok(read_document(tree)),
        None => Err(Failure::Parse.text()),
    }
}

/// What a load returns for a settings file with the given contents, and,
/// for `None`, where there is no settings file.
pub open spec fn load_result(contents: Option<Seq<char>>) -> Result<SettingsView, Seq<char>> {
    match contents {
        Some(text) => parsed_outcome(parsed_json(text)),
        None => Ok(default_settings()),
    }
}

/// The view of what a load returned.
pub open spec fn outcome(r: Result<SettingsDocument, String>) -> Result<SettingsView, Seq<char>> {
    match r {
        Ok(doc) => Ok(doc@),
        Err(message) => Err(message@),
    }
}

/// The view of an optional text.
pub open spec fn optional_str(text: Option<&str>) -> Option<Seq<char>> {
    match text {
        Some(text) => Some(text@),
        None => None,
    }
}

/// The view of an optional JSON value.
pub open spec fn optional_tree(tree: Option<Json>) -> Option<JsonValue> {
    match tree {
        Some(tree) => Some(tree@),
        None => None,
    }
}

/// Loading what was saved returns the document that was saved, whatever its
/// strings and booleans are and whether it has a timezone or not: a settings
/// file whose text is read as the JSON value that `doc` is written as loads
/// as `doc`.
pub proof fn lemma_written_document_loads(doc: SettingsView)
    ensures
        parsed_outcome(Some(document_tree(doc))) == Ok::<SettingsView, Seq<char>>(doc),
{
    lemma_written_document_reads_back(doc);
}

/// Decides what a load returns from what the text of the settings file was
/// read as: `None` says that the text is not JSON.
pub fn document_from_parse(parsed: Option<Json>) -> (r: Result<SettingsDocument, String>)
    ensures
        outcome(r) == parsed_outcome(optional_tree(parsed)),
{
    match parsed {
        Some(tree) => Ok(SettingsDocument::read(&tree)),
        None => Err(Failure::Parse.message()),
    }
}

/// Loads the settings from the contents of the settings file; `None` says
/// that there is no such file.
///
/// Without a file the result is the default document. A text that is not
/// JSON is the one failure. Any JSON value gives a document: itself where it
/// matches the schema, else what can be read out of it.
pub fn load_settings(contents: Option<&str>) -> (r: Result<SettingsDocument, String>)
    ensures
        outcome(r) == load_result(optional_str(contents)),
        contents is None ==> outcome(r) == Ok::<SettingsView, Seq<char>>(default_settings()),
{
    match contents {
        None => Ok(SettingsDocument::default()),
        Some(text) => document_from_parse(parse(text)),
    }
}

/// Decides what a save returns from what writing the document as JSON gave:
/// the text, or the reason why there is none.
pub fn text_from_render(rendered: Result<String, String>) -> (r: Result<String, String>)
    ensures
        match rendered {
            Ok(text) => r == Ok::<String, String>(text),
            Err(reason) => r matches Err(message) && message@ == Failure::Serialize(reason).text(),
        },
{
    match rendered {
        Ok(text) => Ok(text),
        Err(reason) => Err(Failure::Serialize(reason).message()),
    }
}

/// Writes a document as the text of the settings file.
fn document_text(doc: &SettingsDocument) -> (r: Result<String, String>)
    ensures
        match r {
            Ok(text) => pretty_json(document_tree(doc@)) == Some(text@),
            Err(message) => pretty_json(document_tree(doc@)) is None
                && "Failed to serialize settings: "@.is_prefix_of(message@),
        },
{
    let tree = doc.to_json();
    proof {
        lemma_document_tree_keys_distinct(doc@);
    }
    text_from_render(render(tree))
}

/// Saves the settings: returns the text of the settings file for a document
/// with these fields, pretty-printed JSON. No field is checked.
///
/// The one failure is that of writing the document as JSON; its message
/// ends in the reason given.
pub fn save_settings(
    background_color: String,
    text_color: String,
    timezone: Option<String>,
    show_seconds: bool,
) -> (r: Result<String, String>)
    ensures
        ({
            let doc = document_of(
                background_color@,
                text_color@,
                optional_text(timezone),
                show_seconds,
            );
            match r {
                Ok(text) => pretty_json(document_tree(doc)) == Some(text@),
                Err(message) => pretty_json(document_tree(doc)) is None
                    && "Failed to serialize settings: "@.is_prefix_of(message@),
            }
        }),
{
    document_text(&SettingsDocument::new(background_color, text_color, timezone, show_seconds))
}

/// Saves the settings as [`save_settings`] does, loads the text that came
/// of it, and returns the text only where the load gave back the very
/// document that was saved: of a text returned here, loading is known to
/// return the four fields as they were given.
///
/// `None` says that there is no such text: the document could not be
/// written as JSON, or what was written does not load as the document.
pub fn save_settings_checked(
    background_color: String,
    text_color: String,
    timezone: Option<String>,
    show_seconds: bool,
) -> (r: Option<String>)
    ensures
        ({
            let doc = document_of(
                background_color@,
                text_color@,
                optional_text(timezone),
                show_seconds,
            );
            let loads = Ok::<SettingsView, Seq<char>>(doc);
            match r {
                Some(text) => pretty_json(document_tree(doc)) == Some(text@) && load_result(
                    Some(text@),
                ) == loads,
                None => pretty_json(document_tree(doc)) matches Some(text) ==> load_result(
                    Some(text),
                ) != loads,
            }
        }),
{
    let doc = SettingsDocument::new(background_color, text_color, timezone, show_seconds);
    match document_text(&doc) {
        Ok(text) => match load_settings(Some(text.as_str())) {
            Ok(loaded) => if loaded.same_as(&doc) {
                Some(text)
            } else {
                None
            },
            Err(_) => None,
        },
        Err(_) => None,
    }
}

} // verus!
