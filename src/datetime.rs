use crate::json::{is_empty_slot, opt_str_value, DecodeError, Json};
use vstd::prelude::*;

verus! {

/// Whether a text reads as a UTC date and time, in the relaxed RFC 3339 form
/// that chrono accepts.
pub uninterp spec fn is_datetime_text(s: Seq<char>) -> bool;

/// Relies on chrono's `FromStr for DateTime<Utc>` (the parser behind its serde
/// support): whether the text parses. The answer depends on the text alone.
#[verifier::external_body]
pub(crate) fn parses_as_datetime(s: &String) -> (r: bool)
    ensures
        r == is_datetime_text(s@),
{
    s.parse::<chrono::DateTime<chrono::Utc>>().is_ok()
}

/// An optional date and time, kept as its text: absent and `null` read as
/// nothing, a text that chrono reads as a date and time as itself.
pub open spec fn opt_datetime_error(slot: Option<Json>, name: &'static str) -> Option<DecodeError> {
    match slot {
        None => None,
        Some(Json::Null) => None,
        Some(Json::Str(s)) => if is_datetime_text(s@) {
            None
        } else {
            Some(DecodeError::TypeMismatch(name))
        },
        Some(_) => Some(DecodeError::TypeMismatch(name)),
    }
}

pub fn decode_opt_datetime(slot: Option<Json>, name: &'static str) -> (r: Result<Option<String>, DecodeError>)
    ensures
        r == match opt_datetime_error(slot, name) {
            Some(e) => Err(e),
            None => Ok(opt_str_value(slot)),
        },
{
    match slot {
        None => Ok(None),
        Some(Json::Null) => Ok(None),
        Some(Json::Str(s)) => {
            if parses_as_datetime(&s) {
                Ok(Some(s))
            } else {
                Err(DecodeError::TypeMismatch(name))
            }
        },
        Some(_) => Err(DecodeError::TypeMismatch(name)),
    }
}

pub fn check_opt_datetime(v: &Json, name: &'static str) -> (r: Option<DecodeError>)
    ensures
        r == opt_datetime_error(Some(*v), name),
{
    match v {
        Json::Null => None,
        Json::Str(s) => {
            if parses_as_datetime(s) {
                None
            } else {
                Some(DecodeError::TypeMismatch(name))
            }
        },
        _ => Some(DecodeError::TypeMismatch(name)),
    }
}

} // verus!
