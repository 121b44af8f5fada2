//! The contract of the system under test.

use vstd::prelude::*;

use crate::trace::TraceScope;
use crate::value::JsonValue;

verus! {

/// The system under test: invoked once per case, given only the case's
/// input and the scope into which it may emit traces.
///
/// A failure is returned as an error text; the engine records it in the
/// case's result and never lets it abort other cases. Whatever the task
/// does, it only appends to the trace scope: traces already collected stay,
/// in order.
pub trait Task {
    fn run(&self, input: &JsonValue, scope: &mut TraceScope) -> (r: Result<JsonValue, String>)
        ensures
            old(scope)@.is_prefix_of(final(scope)@),
    ;
}

} // verus!
