use vstd::prelude::*;

use crate::counter::{sat_add, Counter};
use crate::text::{dec_seq, u32_to_string};

verus! {

/// The increment endpoint's request payload: the amount to add.
pub struct InputData {
    pub value: u32,
}

/// A response payload: a human-readable sentence embedding the counter
/// value or the increment amount.
pub struct OutputData {
    pub message: String,
}

/// A request that could not be served. `MalformedInput` covers a body that
/// is missing, not valid JSON, or missing the required numeric field.
pub enum RequestError {
    MalformedInput,
}

/// The welcome text of the root route.
pub open spec fn welcome_text() -> Seq<char> {
    "Welcome to the Rust Actix Web Backend!"@
}

/// The read endpoint's message for counter value `v`.
pub open spec fn current_value_message(v: u32) -> Seq<char> {
    "Current counter value: "@ + dec_seq(v as nat)
}

/// The increment endpoint's message for increment amount `v`.
pub open spec fn incremented_by_message(v: u32) -> Seq<char> {
    "Counter incremented by "@ + dec_seq(v as nat)
}

/// Handler for the root route: the fixed welcome text, regardless of
/// counter state.
pub fn index() -> (s: &'static str)
    ensures
        s@ == welcome_text(),
{
    "Welcome to the Rust Actix Web Backend!"
}

/// Handler for the counter-read route: reports the current value without
/// changing it.
pub fn get_counter(data: &Counter) -> (out: OutputData)
    ensures
        out.message@ == current_value_message(data.spec_value()),
{
    let v = data.read();
    let mut message = String::from_str("Current counter value: ");
    let num = u32_to_string(v);
    message.append(num.as_str());
    OutputData { message }
}

/// Handler for the increment route, once the body has parsed: adds the
/// requested amount (saturating at `u32::MAX`) and reports the amount added.
pub fn increment_counter(data: &mut Counter, json: InputData) -> (out: OutputData)
    ensures
        final(data).spec_value() == sat_add(old(data).spec_value(), json.value),
        out.message@ == incremented_by_message(json.value),
{
    data.increment(json.value);
    let mut message = String::from_str("Counter incremented by ");
    let num = u32_to_string(json.value);
    message.append(num.as_str());
    OutputData { message }
}

/// The increment endpoint's full decision, given the outcome of parsing the
/// request body (`None` when the body was missing, not JSON, or missing the
/// numeric field): a malformed body is rejected and leaves the counter
/// exactly as it was; a parsed body increments the counter and succeeds.
pub fn handle_increment(data: &mut Counter, parsed: Option<InputData>) -> (r: Result<
    OutputData,
    RequestError,
>)
    ensures
        parsed is None ==> ({
            &&& *final(data) == *old(data)
            &&& r matches Err(RequestError::MalformedInput)
        }),
        parsed matches Some(input) ==> ({
            &&& final(data).spec_value() == sat_add(old(data).spec_value(), input.value)
            &&& r matches Ok(out) && out.message@ == incremented_by_message(input.value)
        }),
{
    match parsed {
        None => Err(RequestError::MalformedInput),
        Some(input) => Ok(increment_counter(data, input)),
    }
}

/// Reads are idempotent: the read endpoint's response is determined by the
/// counter value alone, and reading does not change that value, so repeated
/// reads with no intervening increment return identical responses.
pub proof fn lemma_read_idempotent(c1: Counter, c2: Counter)
    requires
        c1.spec_value() == c2.spec_value(),
    ensures
        current_value_message(c1.spec_value()) == current_value_message(c2.spec_value()),
{
}

} // verus!
