use vstd::prelude::*;
use vstd::string::StringExecFns;

verus! {

/// A parsed JSON document of `serde_json`, carried through opaquely.
#[verifier::external_type_specification]
#[verifier::external_body]
pub struct ExJsonValue(serde_json::Value);

/// The parse error of `serde_json`, carried through opaquely.
#[verifier::external_type_specification]
#[verifier::external_body]
pub struct ExJsonError(serde_json::Error);

/// The document that `serde_json::from_str` reads from `text`, if it is JSON.
pub uninterp spec fn parsed_json(text: Seq<char>) -> Option<serde_json::Value>;

/// The member `key` of a JSON object; `None` for a missing key or a value
/// that is not an object.
pub uninterp spec fn json_member(v: serde_json::Value, key: Seq<char>) -> Option<serde_json::Value>;

/// Whether a JSON value is an object.
pub uninterp spec fn json_is_object(v: serde_json::Value) -> bool;

/// The decimal text of a JSON number read as a 64-bit float; `None` for a
/// value that is not a number.
pub uninterp spec fn json_number_text(v: serde_json::Value) -> Option<Seq<char>>;

/// Relies on `serde_json::from_str`: it parses `text` as one JSON document,
/// and the outcome depends on the text alone.
#[verifier::external_body]
fn parse_json(text: &str) -> (r: Result<serde_json::Value, serde_json::Error>)
    ensures
        match r {
            Ok(v) => parsed_json(text@) == Some(v),
            Err(_) => parsed_json(text@) is None,
        },
{
    serde_json::from_str(text)
}

/// Relies on `Display` of `serde_json::Error`: a description of the fault.
#[verifier::external_body]
fn json_error_text(e: &serde_json::Error) -> (r: String) {
    e.to_string()
}

/// Relies on `serde_json::Value::get` with a string key: the member of an
/// object, and `None` for any other kind of value.
#[verifier::external_body]
fn member<'a>(v: &'a serde_json::Value, key: &str) -> (r: Option<&'a serde_json::Value>)
    ensures
        match r {
            Some(m) => json_member(*v, key@) == Some(*m),
            None => json_member(*v, key@) is None,
        },
{
    v.get(key)
}

/// Relies on `serde_json::Value::is_object`: whether the value is an object.
pub assume_specification[ serde_json::Value::is_object ](v: &serde_json::Value) -> (r: bool)
    ensures
        r == json_is_object(*v),
;

/// Relies on `serde_json::Value::as_f64`, which reads every JSON number and
/// nothing else, and on the float's `Display` for its decimal text.
#[verifier::external_body]
fn number_text(v: &serde_json::Value) -> (r: Option<String>)
    ensures
        match r {
            Some(t) => json_number_text(*v) == Some(t@),
            None => json_number_text(*v) is None,
        },
{
    match v.as_f64() {
        Some(t) => Some(t.to_string()),
        None => None,
    }
}

/// Why a forecast body gave no temperature, as contracts see it.
pub enum Fault {
    Parse,
    Missing(Seq<char>),
}

/// Why a forecast body gave no temperature.
#[derive(Debug)]
pub enum ExtractError {
    /// The body is not JSON; the parser's description of the fault.
    ParseFailure(String),
    /// The named member is absent or of the wrong kind.
    MissingField(String),
}

impl ExtractError {
    /// The error as contracts see it: its kind and, for a missing member, its name.
    pub open spec fn fault(&self) -> Fault {
        match self {
            ExtractError::ParseFailure(_) => Fault::Parse,
            ExtractError::MissingField(f) => Fault::Missing(f@),
        }
    }

    /// A description of the error for diagnostics.
    pub fn message(&self) -> (r: String)
        ensures
            match self {
                ExtractError::ParseFailure(cause) => r@ == parse_message_spec(cause@),
                ExtractError::MissingField(field) => r@ == missing_message_spec(field@),
            },
    {
        match self {
            ExtractError::ParseFailure(cause) => {
                let mut m = String::from_str(
                    "Failed to parse returned JSON payload from weather API: ",
                );
                m.append(cause.as_str());
                m
            },
            ExtractError::MissingField(field) => {
                let mut m = String::from_str("Missing '");
                m.append(field.as_str());
                m.append("' key or invalid type in returned JSON payload from weather API");
                m
            },
        }
    }
}

pub open spec fn parse_message_spec(cause: Seq<char>) -> Seq<char> {
    "Failed to parse returned JSON payload from weather API: "@ + cause
}

pub open spec fn missing_message_spec(field: Seq<char>) -> Seq<char> {
    "Missing '"@ + field + "' key or invalid type in returned JSON payload from weather API"@
}

/// The temperature text that a forecast body holds at `current.temperature_2m`,
/// or the first fault on the way there: the body must be JSON, `current` an
/// object, and `temperature_2m` a number.
pub open spec fn temperature_spec(text: Seq<char>) -> Result<Seq<char>, Fault> {
    match parsed_json(text) {
        None => Err(Fault::Parse),
        Some(root) => match json_member(root, "current"@) {
            Some(current) if json_is_object(current) => match json_member(
                current,
                "temperature_2m"@,
            ) {
                Some(t) => match json_number_text(t) {
                    Some(s) => Ok(s),
                    None => Err(Fault::Missing("temperature_2m"@)),
                },
                None => Err(Fault::Missing("temperature_2m"@)),
            },
            _ => Err(Fault::Missing("current"@)),
        },
    }
}

/// Reads the current temperature out of a forecast body.
pub fn extract_temperature(json: &str) -> (r: Result<String, ExtractError>)
    ensures
        match r {
            Ok(t) => temperature_spec(json@) == Ok::<Seq<char>, Fault>(t@),
            Err(e) => temperature_spec(json@) == Err::<Seq<char>, Fault>(e.fault()),
        },
{
    let root = match parse_json(json) {
        Ok(v) => v,
        Err(e) => {
            return Err(ExtractError::ParseFailure(json_error_text(&e)));
        },
    };
    let current = match member(&root, "current") {
        Some(c) if c.is_object() => c,
        _ => {
            return Err(ExtractError::MissingField(String::from_str("current")));
        },
    };
    match member(current, "temperature_2m") {
        Some(t) => match number_text(t) {
            Some(s) => Ok(s),
            None => Err(ExtractError::MissingField(String::from_str("temperature_2m"))),
        },
        None => Err(ExtractError::MissingField(String::from_str("temperature_2m"))),
    }
}

} // verus!
