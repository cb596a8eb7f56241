//! The structured document dialect that sessions are persisted in, modelled as
//! a value tree, together with the small conversion helpers shared by the
//! encoders and decoders.

use vstd::prelude::*;
use vstd::string::*;

use crate::errors::{err_is, ErrKind, Errcode};

verus! {

/// One node of the persisted document: the dialect only ever produces
/// null, booleans, strings, arrays and objects (keyed by strings, with the
/// key order significant).
#[derive(Debug)]
pub enum JsonValue {
    Null,
    Bool(bool),
    Str(String),
    Array(Vec<JsonValue>),
    Object(Vec<(String, JsonValue)>),
}

/// Extracts the text of a string node; any other node kind is a schema
/// violation reported as `JsonError`.
pub fn strval_to_string(val: &JsonValue) -> (r: Result<String, Errcode>)
    ensures
        match r {
            Ok(s) => val matches JsonValue::Str(t) && s@ == t@,
            Err(e) => !(val matches JsonValue::Str(_)) && err_is(e, ErrKind::Json),
        },
{
    match val {
        JsonValue::Str(s) => Ok(s.clone()),
        _ => Err(
            Errcode::JsonError(String::from_str("Attempt to convert non-string Value to String")),
        ),
    }
}

} // verus!
