//! The board layout: the front end's JSON value, kept as indented text in one
//! file of the application's data directory.

use vstd::prelude::*;

verus! {

/// The name of the layout file inside the application's data directory.
pub const LAYOUT_FILE_NAME: &'static str = "layout.json";

#[verifier::external_type_specification]
#[verifier::external_body]
pub struct ExJsonValue(serde_json::Value);

#[verifier::external_type_specification]
#[verifier::external_body]
pub struct ExJsonError(serde_json::Error);

/// The indented JSON text of a value, as serde_json's `to_string_pretty`
/// writes it. Objects keep their keys sorted, so the text depends on the value
/// alone.
pub uninterp spec fn pretty_text_of(v: serde_json::Value) -> Seq<char>;

/// Relies on serde_json::to_string_pretty: the value as indented JSON text.
/// It fails only where a `Serialize` impl fails or a map key is not a string;
/// `Value` forwards each part to the serializer, its keys are strings, and
/// the text is written into a `Vec`, so it succeeds on every `Value`.
#[verifier::external_body]
fn pretty_json(value: &serde_json::Value) -> (r: Result<String, serde_json::Error>)
    ensures
        r is Ok,
        r->Ok_0@ == pretty_text_of(*value),
{
    serde_json::to_string_pretty(value)
}

/// The text that persisting `board_state` writes to the layout file: its
/// indented JSON text. Every JSON value has one, so this always succeeds, and
/// the same value always gives the same text.
pub fn layout_text(board_state: &serde_json::Value) -> (r: Result<String, String>)
    ensures
        r is Ok,
        r->Ok_0@ == pretty_text_of(*board_state),
{
    match pretty_json(board_state) {
        Ok(text) => Ok(text),
        Err(e) => Err(e.to_string()),
    }
}

/// What loading returns for the layout file's contents: the empty text when
/// there is no file.
pub open spec fn loaded_text(file: Option<Seq<char>>) -> Seq<char> {
    match file {
        Some(text) => text,
        None => Seq::empty(),
    }
}

/// The layout text for the layout file's contents, `None` when there is no
/// file: an absent file reads as the empty text, not as an error.
pub fn load_layout(contents: Option<String>) -> (r: String)
    ensures
        r@ == loaded_text(contents.deep_view()),
        contents is None ==> r@.len() == 0,
{
    match contents {
        Some(text) => text,
        None => String::new(),
    }
}

/// Persisting `board_state` and then loading returns exactly the JSON text
/// that was written; persisting an equal value again writes the same text.
pub proof fn layout_round_trip(board_state: serde_json::Value, again: serde_json::Value)
    ensures
        loaded_text(Some(pretty_text_of(board_state))) == pretty_text_of(board_state),
        again == board_state ==> pretty_text_of(again) == pretty_text_of(board_state),
{
}

} // verus!
