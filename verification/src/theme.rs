//! Following the colours of the Harness page.
//!
//! The page is asked for its theme and replies with JSON; the theme is passed on to the other
//! windows of the application if the reply holds one.
use vstd::prelude::*;

use crate::text::opt_text;

verus! {

/// What kind of value a JSON text holds.
#[derive(Clone, Copy, Debug, PartialEq, Eq, Structural)]
pub enum JsonKind {
    Null,
    Flag,
    Number,
    Text,
    List,
    Table,
}

/// White space between the parts of a JSON text.
pub open spec fn json_space(c: char) -> bool {
    c == ' ' || c == '\n' || c == '\t' || c == '\r'
}

/// Nothing but white space.
pub open spec fn json_blank(s: Seq<char>) -> bool {
    forall|i: int| 0 <= i < s.len() ==> json_space(#[trigger] s[i])
}

/// The JSON text `null`, with white space around it.
pub open spec fn json_null_text(text: Seq<char>) -> bool {
    exists|before: Seq<char>, after: Seq<char>|
        json_blank(before) && json_blank(after) && text == #[trigger] (before + "null"@ + after)
}

/// The kind of value that `serde_json::from_str` finds in `text`; `None` if it finds none.
pub uninterp spec fn json_kind_of(text: Seq<char>) -> Option<JsonKind>;

/// Calls `serde_json::from_str` for a `serde_json::Value` and tells which variant it gives. The
/// result is named; of the name it is claimed that the text `null`, with white space around it,
/// gives `Null`.
#[verifier::external_body]
fn json_kind(text: &str) -> (kind: Option<JsonKind>)
    ensures
        kind == json_kind_of(text@),
        json_null_text(text@) ==> kind == Some(JsonKind::Null),
{
    match serde_json::from_str::<serde_json::Value>(text) {
        Ok(serde_json::Value::Null) => Some(JsonKind::Null),
        Ok(serde_json::Value::Bool(_)) => Some(JsonKind::Flag),
        Ok(serde_json::Value::Number(_)) => Some(JsonKind::Number),
        Ok(serde_json::Value::String(_)) => Some(JsonKind::Text),
        Ok(serde_json::Value::Array(_)) => Some(JsonKind::List),
        Ok(serde_json::Value::Object(_)) => Some(JsonKind::Table),
        Err(_) => None,
    }
}

/// A reply holds a theme to pass on: it is JSON and not `null`, it could be read as a theme, and
/// the theme has a background.
pub open spec fn theme_wanted(kind: Option<JsonKind>, background: Option<Seq<char>>) -> bool {
    &&& kind matches Some(k) && k != JsonKind::Null
    &&& background matches Some(colour) && colour.len() > 0
}

/// Whether a reply of the given kind holds a theme to pass on. `background` is that of the theme,
/// if the reply could be read as one.
pub fn theme_verdict(kind: Option<JsonKind>, background: &Option<String>) -> (pass_on: bool)
    ensures
        pass_on == theme_wanted(kind, opt_text(*background)),
{
    match kind {
        None => false,
        Some(JsonKind::Null) => false,
        Some(_) => match background {
            Some(colour) => !colour.as_str().is_empty(),
            None => false,
        },
    }
}

/// Whether the reply `json` of the page holds a theme to pass on. `background` is that of the
/// theme, if the reply could be read as one.
pub fn sync_dsh_theme(json: &str, background: &Option<String>) -> (pass_on: bool)
    ensures
        pass_on == theme_wanted(json_kind_of(json@), opt_text(*background)),
        json_null_text(json@) ==> !pass_on,
{
    theme_verdict(json_kind(json), background)
}

/// A theme is passed on exactly if the reply was JSON other than `null` and was read as a theme with
/// a background that is not empty; which other kind of JSON it was does not matter.
pub proof fn law_theme_needs_a_background(
    kind: Option<JsonKind>,
    other: Option<JsonKind>,
    background: Option<Seq<char>>,
)
    ensures
        theme_wanted(kind, background) <==> kind is Some && kind != Some(JsonKind::Null)
            && background is Some && background != Some(Seq::<char>::empty()),
        kind is Some && kind != Some(JsonKind::Null) && other is Some && other != Some(
            JsonKind::Null,
        ) ==> theme_wanted(kind, background) == theme_wanted(other, background),
{
    if background is Some && background->0.len() == 0 {
        assert(background->0 == Seq::<char>::empty());
    }
}

} // verus!
