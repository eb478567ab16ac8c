//! What a builtin call hands back to the calling script.
//!
//! Values go to scripts as JSON, as `serde_json::Value`. Nothing of such a
//! value is read here. The three functions that make one are taken on
//! trust: each is a single constructor of `serde_json`, and its contract
//! only gives the result a name.

use crate::trigger::ConfigError;
use crate::workers::WorkerError;
use serde_json::Value;
use vstd::prelude::*;

verus! {

/// `serde_json::Value`, any JSON value. It is carried as it is: nothing
/// is known here of what a value holds.
#[verifier::external_type_specification]
#[verifier::external_body]
pub struct ExValue(serde_json::Value);

/// The JSON string that `serde_json::Value::String` makes of the
/// characters.
pub uninterp spec fn json_text(text: Seq<char>) -> Value;

/// The JSON boolean that `serde_json::Value::Bool` makes of the flag.
pub uninterp spec fn json_flag(flag: bool) -> Value;

/// The JSON array that `serde_json::Value::Array` makes of the items, in
/// their order.
pub uninterp spec fn json_list(items: Seq<Value>) -> Value;

/// Makes a JSON string with `serde_json::Value::String`. Taken on trust:
/// the result is what that constructor gives for these characters, and
/// depends on nothing else.
#[verifier::external_body]
pub(crate) fn json_string(text: String) -> (v: Value)
    ensures
        v == json_text(text@),
{
    Value::String(text)
}

/// Makes a JSON boolean with `serde_json::Value::Bool`. Taken on trust:
/// the result is what that constructor gives for `flag`, and depends on
/// nothing else.
#[verifier::external_body]
pub(crate) fn json_bool(flag: bool) -> (v: Value)
    ensures
        v == json_flag(flag),
{
    Value::Bool(flag)
}

/// Makes a JSON array with `serde_json::Value::Array`. Taken on trust:
/// the result is what that constructor gives for these items in this
/// order, and depends on nothing else.
#[verifier::external_body]
pub(crate) fn json_array(items: Vec<Value>) -> (v: Value)
    ensures
        v == json_list(items@),
{
    Value::Array(items)
}

/// Why a builtin call failed.
#[derive(Debug, PartialEq, Eq)]
pub enum BuiltinError {
    /// The worker registry refused the call.
    Worker(WorkerError),
    /// The trigger configuration of the call is malformed.
    Config(ConfigError),
    /// A service outside the orchestrator failed; the text is its report.
    Service(String),
    /// The context for blocking work could not run the call; the text is
    /// its report.
    Blocking(String),
}

/// What a builtin call hands back to the calling script.
#[derive(Debug, PartialEq, Eq)]
pub enum FunctionOutcome {
    /// The call succeeded and returns nothing.
    Empty,
    /// The call succeeded and returns this value.
    Returned(Value),
    /// The call failed.
    Failed(BuiltinError),
}

impl FunctionOutcome {
    /// The number of return values that the calling script receives.
    pub open spec fn slots(self) -> nat {
        match self {
            FunctionOutcome::Returned(_) => 1,
            _ => 0,
        }
    }

    /// Whether the calling script receives a return value.
    pub fn has_value(&self) -> (r: bool)
        ensures
            r == (self.slots() == 1),
    {
        match self {
            FunctionOutcome::Returned(_) => true,
            _ => false,
        }
    }
}

/// The JSON strings of the texts, in their order.
pub open spec fn json_texts(texts: Seq<String>) -> Seq<Value> {
    texts.map_values(|t: String| json_text(t@))
}

/// The JSON array of the JSON strings that hold `texts`, in their order.
pub fn list_value(texts: &Vec<String>) -> (v: Value)
    ensures
        v == json_list(json_texts(texts@)),
{
    let mut items: Vec<Value> = Vec::new();
    let mut i: usize = 0;
    while i < texts.len()
        invariant
            i <= texts.len(),
            items@ == json_texts(texts@.take(i as int)),
        decreases texts.len() - i,
    {
        items.push(json_string(texts[i].clone()));
        i += 1;
    }
    assert(texts@.take(texts@.len() as int) =~= texts@);
    json_array(items)
}

/// The outcome of a call that returns a value: the value on success, the
/// error on failure.
pub fn wrap(r: Result<Value, BuiltinError>) -> (outcome: FunctionOutcome)
    ensures
        outcome == match r {
            Ok(v) => FunctionOutcome::Returned(v),
            Err(e) => FunctionOutcome::Failed(e),
        },
{
    match r {
        Ok(v) => FunctionOutcome::Returned(v),
        Err(e) => FunctionOutcome::Failed(e),
    }
}

/// The outcome of a call that returns nothing: `Empty` on success, the
/// error on failure.
pub fn wrap_unit(r: Result<(), BuiltinError>) -> (outcome: FunctionOutcome)
    ensures
        outcome == match r {
            Ok(_) => FunctionOutcome::Empty,
            Err(e) => FunctionOutcome::Failed(e),
        },
{
    match r {
        Ok(_) => FunctionOutcome::Empty,
        Err(e) => FunctionOutcome::Failed(e),
    }
}

/// The outcome of a call that was sent to the context for blocking work:
/// the outcome that the call computed there or, where that context could
/// not run it, the failure with the context's report.
pub fn blocking_outcome(joined: Result<FunctionOutcome, String>) -> (outcome: FunctionOutcome)
    ensures
        outcome == match joined {
            Ok(o) => o,
            Err(report) => FunctionOutcome::Failed(BuiltinError::Blocking(report)),
        },
{
    match joined {
        Ok(o) => o,
        Err(report) => FunctionOutcome::Failed(BuiltinError::Blocking(report)),
    }
}

} // verus!
