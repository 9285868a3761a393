//! The JSON texts of the protocol, read and written by `serde_json`.
//!
//! Nothing in this crate parses or escapes JSON itself. The functions below
//! hand texts to `serde_json` and give its answers back as plain values; what
//! `serde_json` makes of a text is not defined here, only named, so that the
//! rest of the crate can say exactly how it uses those answers.

use vstd::prelude::*;

verus! {

/// One member of a JSON object: its name, and the text of its value as it
/// stood in the object, not yet interpreted.
#[derive(Clone, Debug, PartialEq, Eq)]
pub struct Member {
    pub name: String,
    pub text: String,
}

impl View for Member {
    type V = (Seq<char>, Seq<char>);

    open spec fn view(&self) -> (Seq<char>, Seq<char>) {
        (self.name@, self.text@)
    }
}

/// The members of an object as pairs of name and value text.
pub open spec fn members_view(members: Seq<Member>) -> Seq<(Seq<char>, Seq<char>)> {
    members.map_values(|member: Member| member@)
}

/// What `serde_json::from_slice` makes of `text` when asked for a map from
/// member names to raw values: one member for each name in the object that
/// `text` holds, ordered by name, or the parser's complaint.
pub uninterp spec fn json_object(text: Seq<u8>) -> Result<Seq<(Seq<char>, Seq<char>)>, Seq<char>>;

/// What `serde_json::from_str` makes of `text` when asked for a `bool`.
pub uninterp spec fn json_bool(text: Seq<char>) -> Result<bool, Seq<char>>;

/// What `serde_json::from_str` makes of `text` when asked for a `u32`.
pub uninterp spec fn json_u32(text: Seq<char>) -> Result<u32, Seq<char>>;

/// What `serde_json::from_str` makes of `text` when asked for a `String`.
pub uninterp spec fn json_string(text: Seq<char>) -> Result<Seq<char>, Seq<char>>;

/// What `serde_json::from_str` makes of `text` when asked for the unit value.
pub uninterp spec fn json_unit(text: Seq<char>) -> Result<(), Seq<char>>;

/// The JSON string literal that `serde_json::to_string` writes for `text`.
pub uninterp spec fn json_quote(text: Seq<char>) -> Seq<char>;

/// Splits a JSON object into its members with `serde_json::from_slice`, asked
/// for a `BTreeMap` from `String` to `Box<RawValue>`.
///
/// Trusted: the result is whatever that call returns, each member turned into
/// a [`Member`] in the order in which the map hands them out, and the error
/// turned into its message. Nothing is claimed about which texts are objects.
#[verifier::external_body]
pub(crate) fn parse_object(text: &[u8]) -> (parsed: Result<Vec<Member>, String>)
    ensures
        match parsed {
            Ok(members) => json_object(text@) == Ok::<Seq<(Seq<char>, Seq<char>)>, Seq<char>>(
                members_view(members@),
            ),
            Err(complaint) => json_object(text@) == Err::<Seq<(Seq<char>, Seq<char>)>, Seq<char>>(
                complaint@,
            ),
        },
{
    match serde_json::from_slice::<
        std::collections::BTreeMap<String, Box<serde_json::value::RawValue>>,
    >(text) {
        Ok(map) => Ok(
            map.into_iter().map(|(name, raw)| Member { name, text: raw.get().to_string() }).collect(),
        ),
        Err(error) => Err(error.to_string()),
    }
}

/// Reads a JSON boolean with `serde_json::from_str`.
///
/// Trusted: the result is what that call returns, the error turned into its
/// message.
#[verifier::external_body]
pub(crate) fn parse_bool(text: &str) -> (parsed: Result<bool, String>)
    ensures
        match parsed {
            Ok(value) => json_bool(text@) == Ok::<bool, Seq<char>>(value),
            Err(complaint) => json_bool(text@) == Err::<bool, Seq<char>>(complaint@),
        },
{
    match serde_json::from_str::<bool>(text) {
        Ok(value) => Ok(value),
        Err(error) => Err(error.to_string()),
    }
}

/// Reads a JSON number that fits in 32 bits with `serde_json::from_str`.
///
/// Trusted: the result is what that call returns, the error turned into its
/// message.
#[verifier::external_body]
pub(crate) fn parse_u32(text: &str) -> (parsed: Result<u32, String>)
    ensures
        match parsed {
            Ok(value) => json_u32(text@) == Ok::<u32, Seq<char>>(value),
            Err(complaint) => json_u32(text@) == Err::<u32, Seq<char>>(complaint@),
        },
{
    match serde_json::from_str::<u32>(text) {
        Ok(value) => Ok(value),
        Err(error) => Err(error.to_string()),
    }
}

/// Reads a JSON string with `serde_json::from_str`.
///
/// Trusted: the result is what that call returns, the error turned into its
/// message.
#[verifier::external_body]
pub(crate) fn parse_string(text: &str) -> (parsed: Result<String, String>)
    ensures
        match parsed {
            Ok(value) => json_string(text@) == Ok::<Seq<char>, Seq<char>>(value@),
            Err(complaint) => json_string(text@) == Err::<Seq<char>, Seq<char>>(complaint@),
        },
{
    match serde_json::from_str::<String>(text) {
        Ok(value) => Ok(value),
        Err(error) => Err(error.to_string()),
    }
}

/// Reads the JSON value `null` with `serde_json::from_str`.
///
/// Trusted: the result is what that call returns, the error turned into its
/// message.
#[verifier::external_body]
pub(crate) fn parse_unit(text: &str) -> (parsed: Result<(), String>)
    ensures
        match parsed {
            Ok(value) => json_unit(text@) == Ok::<(), Seq<char>>(()),
            Err(complaint) => json_unit(text@) == Err::<(), Seq<char>>(complaint@),
        },
{
    match serde_json::from_str::<()>(text) {
        Ok(value) => Ok(value),
        Err(error) => Err(error.to_string()),
    }
}

/// Writes a string as a JSON string literal with `serde_json::to_string`.
///
/// Trusted: the result is the text that the call returns. The call writes
/// into memory and has no way to fail on a string.
#[verifier::external_body]
pub(crate) fn quote(text: &str) -> (quoted: String)
    ensures
        quoted@ == json_quote(text@),
{
    serde_json::to_string(text).unwrap_or_default()
}

} // verus!
