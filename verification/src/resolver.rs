//! Remote configuration parsing and resolution: turns the body of the
//! configuration endpoint's response into a `Configuration`, and falls back
//! to the compiled defaults when the fetch or the parse fails. The JSON
//! field extraction goes through serde_json behind trusted wrappers whose
//! results carry names, so every contract here ties the returned fields to
//! the response text; every decision about the extracted values is verified.

use vstd::prelude::*;
use crate::config::Configuration;
use crate::config::ResolveError;
use crate::config::is_default_configuration;
use crate::config::resolve_configuration;

verus! {

/// The string content of the named top-level field of a JSON document:
/// `None` when the text is not a JSON object, the field is absent, or its
/// value is not a string. A function of the text and the key alone.
pub uninterp spec fn json_string_field(body: Seq<char>, key: Seq<char>) -> Option<Seq<char>>;

/// The content of the named top-level field when it is a JSON number that
/// is an unsigned 64-bit integer; `None` otherwise. A function of the text
/// and the key alone.
pub uninterp spec fn json_u64_field(body: Seq<char>, key: Seq<char>) -> Option<u64>;

/// The content of the named top-level field when it is a JSON number that
/// is a signed 64-bit integer; `None` otherwise. A function of the text and
/// the key alone.
pub uninterp spec fn json_i64_field(body: Seq<char>, key: Seq<char>) -> Option<i64>;

/// Relies on serde_json::from_str::<Value>, Value::get and Value::as_str:
/// the string content of the named field of the JSON document. Parsing is
/// recursion-limited, never panics, and depends on the text alone.
#[verifier::external_body]
fn string_field(body: &str, key: &str) -> (r: Option<String>)
    ensures
        match r {
            Some(s) => json_string_field(body@, key@) == Some(s@),
            None => json_string_field(body@, key@) is None,
        },
{
    let doc: serde_json::Value = serde_json::from_str(body).ok()?;
    let field = doc.get(key)?;
    field.as_str().map(|s| s.to_owned())
}

/// Relies on serde_json::from_str::<Value>, Value::get and Value::as_u64:
/// the unsigned integer content of the named field of the JSON document.
#[verifier::external_body]
fn u64_field(body: &str, key: &str) -> (r: Option<u64>)
    ensures
        r == json_u64_field(body@, key@),
{
    let doc: serde_json::Value = serde_json::from_str(body).ok()?;
    doc.get(key)?.as_u64()
}

/// Relies on serde_json::from_str::<Value>, Value::get and Value::as_i64:
/// the signed integer content of the named field of the JSON document.
#[verifier::external_body]
fn i64_field(body: &str, key: &str) -> (r: Option<i64>)
    ensures
        r == json_i64_field(body@, key@),
{
    let doc: serde_json::Value = serde_json::from_str(body).ok()?;
    doc.get(key)?.as_i64()
}

/// Why a response body was rejected as a configuration. Distinct from a
/// transport failure: the exchange succeeded and the body itself is at
/// fault. No default is substituted at this layer; the fallback is the
/// resolution step's decision.
#[derive(PartialEq, Eq, Structural, Clone, Copy, Debug)]
pub enum ConfigParseError {
    /// The body is not a JSON object carrying all five fields with their
    /// expected kinds.
    MissingOrMistypedField,
    /// The heartbeat interval field is zero; the interval must be positive.
    IntervalNotPositive,
    /// The timezone offset field does not fit a signed 32-bit integer.
    TimezoneOffsetOutOfRange,
}

/// All five expected fields are present with their expected kinds.
pub open spec fn config_fields_present(body: Seq<char>) -> bool {
    &&& json_string_field(body, "alertEndpoint"@) is Some
    &&& json_string_field(body, "iAmAliveEndpoint"@) is Some
    &&& json_u64_field(body, "iAmAliveIntervalSeconds"@) is Some
    &&& json_string_field(body, "crontab"@) is Some
    &&& json_i64_field(body, "timezoneOffsetSec"@) is Some
}

/// The body yields a configuration: the five fields are present, the
/// heartbeat interval is positive, and the timezone offset fits 32 bits.
pub open spec fn config_accepted(body: Seq<char>) -> bool {
    &&& config_fields_present(body)
    &&& json_u64_field(body, "iAmAliveIntervalSeconds"@) != Some(0u64)
    &&& (json_i64_field(body, "timezoneOffsetSec"@) matches Some(t) && i32::MIN as i64 <= t
        && t <= i32::MAX as i64)
}

/// `c` carries exactly the five fields of the body, and is well formed.
pub open spec fn parsed_from(body: Seq<char>, c: Configuration) -> bool {
    &&& json_string_field(body, "alertEndpoint"@) == Some(c.alert_endpoint@)
    &&& json_string_field(body, "iAmAliveEndpoint"@) == Some(c.i_am_alive_endpoint@)
    &&& json_u64_field(body, "iAmAliveIntervalSeconds"@) == Some(c.i_am_alive_interval_seconds)
    &&& json_string_field(body, "crontab"@) == Some(c.crontab@)
    &&& json_i64_field(body, "timezoneOffsetSec"@) == Some(c.timezone_offset as i64)
    &&& c.i_am_alive_interval_seconds > 0
}

/// Reads a configuration out of a response body. The body must be a JSON
/// object carrying the five expected fields; success, the returned fields,
/// and each rejection are pinned to the text through the field names above:
/// a body whose five fields are present and in range is accepted, with the
/// configuration equal to those fields, and every other body is rejected
/// with the error saying why.
pub fn parse_configuration(body: &str) -> (r: Result<Configuration, ConfigParseError>)
    ensures
        r matches Ok(c) ==> parsed_from(body@, c) && c.wf(),
        r is Ok <==> config_accepted(body@),
        r == Err::<Configuration, ConfigParseError>(ConfigParseError::MissingOrMistypedField)
            <==> !config_fields_present(body@),
        r == Err::<Configuration, ConfigParseError>(ConfigParseError::IntervalNotPositive) <==> (
        config_fields_present(body@) && json_u64_field(body@, "iAmAliveIntervalSeconds"@) == Some(
            0u64,
        )),
        r == Err::<Configuration, ConfigParseError>(ConfigParseError::TimezoneOffsetOutOfRange)
            <==> (config_fields_present(body@) && json_u64_field(
            body@,
            "iAmAliveIntervalSeconds"@,
        ) != Some(0u64) && !(json_i64_field(body@, "timezoneOffsetSec"@) matches Some(t)
            && i32::MIN as i64 <= t && t <= i32::MAX as i64)),
{
    let alert_endpoint = match string_field(body, "alertEndpoint") {
        Some(s) => s,
        None => {
            return Err(ConfigParseError::MissingOrMistypedField);
        },
    };
    let i_am_alive_endpoint = match string_field(body, "iAmAliveEndpoint") {
        Some(s) => s,
        None => {
            return Err(ConfigParseError::MissingOrMistypedField);
        },
    };
    let interval = match u64_field(body, "iAmAliveIntervalSeconds") {
        Some(v) => v,
        None => {
            return Err(ConfigParseError::MissingOrMistypedField);
        },
    };
    let crontab = match string_field(body, "crontab") {
        Some(s) => s,
        None => {
            return Err(ConfigParseError::MissingOrMistypedField);
        },
    };
    let tz = match i64_field(body, "timezoneOffsetSec") {
        Some(v) => v,
        None => {
            return Err(ConfigParseError::MissingOrMistypedField);
        },
    };
    if interval == 0 {
        return Err(ConfigParseError::IntervalNotPositive);
    }
    if tz < i32::MIN as i64 || tz > i32::MAX as i64 {
        return Err(ConfigParseError::TimezoneOffsetOutOfRange);
    }
    Ok(
        Configuration {
            alert_endpoint,
            i_am_alive_endpoint,
            i_am_alive_interval_seconds: interval,
            crontab,
            timezone_offset: tz as i32,
        },
    )
}

/// Resolves the configuration from the outcome of the one startup fetch:
/// `body` is the response text when the fetch succeeded, `None` when it
/// failed (a body that is not UTF-8 text cannot be a `&str` and counts the
/// same). A body the parse accepts resolves to exactly the parsed
/// configuration; every other outcome falls back to the compiled defaults,
/// unless the mandatory-remote flag is set, in which case resolution fails
/// and the caller must terminate.
pub fn resolve_response(body: Option<&String>, mandatory: bool) -> (r: Result<
    Configuration,
    ResolveError,
>)
    ensures
        r matches Ok(c) ==> c.wf(),
        r is Err ==> mandatory,
        match body {
            Some(b) => config_accepted(b@) ==> (r matches Ok(c) && parsed_from(b@, c)),
            None => true,
        },
        (match body {
            Some(b) => !config_accepted(b@),
            None => true,
        }) ==> if mandatory {
            r == Err::<Configuration, ResolveError>(ResolveError::MandatoryRemoteUnavailable)
        } else {
            r matches Ok(c) && is_default_configuration(c)
        },
{
    match body {
        None => resolve_configuration(None, mandatory),
        Some(b) => match parse_configuration(b.as_str()) {
            Ok(c) => resolve_configuration(Some(c), mandatory),
            Err(_) => resolve_configuration(None, mandatory),
        },
    }
}

} // verus!
