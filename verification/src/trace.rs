//! Per-execution trace collection.
//!
//! A [`TraceScope`] is the isolation boundary for telemetry: the engine
//! opens a fresh scope for each case, hands it to the task by exclusive
//! reference, and collects exactly the traces emitted into that scope.
//! Because a scope is owned by one case's execution and never shared, two
//! concurrently running scopes cannot observe each other's traces.

use vstd::prelude::*;

use crate::types::{clone_opt_string, Trace, TraceModel, TokenUsage};
use crate::value::{clone_value, JsonValue, ValueModel};

verus! {

/// A fresh, per-execution collection of traces, in emission order.
pub struct TraceScope {
    traces: Vec<Trace>,
}

impl View for TraceScope {
    type V = Seq<TraceModel>;

    closed spec fn view(&self) -> Seq<TraceModel> {
        Seq::new(self.traces@.len(), |i: int| self.traces@[i]@)
    }
}

impl TraceScope {
    /// Opens a fresh, empty scope.
    pub fn new() -> (s: TraceScope)
        ensures
            s@ == Seq::<TraceModel>::empty(),
    {
        let s = TraceScope { traces: Vec::new() };
        proof {
            assert(s@ =~= Seq::<TraceModel>::empty());
        }
        s
    }

    /// How many traces the scope holds.
    pub fn len(&self) -> (n: usize)
        ensures
            n == self@.len(),
    {
        self.traces.len()
    }

    /// Surrenders the collected traces, in emission order.
    pub fn into_traces(self) -> (r: Vec<Trace>)
        ensures
            r@.len() == self@.len(),
            forall|i: int| 0 <= i < r@.len() ==> r@[i]@ == self@[i],
    {
        self.traces
    }
}

/// Appends a trace to the currently active scope; traces keep their
/// emission order.
pub fn report_trace(scope: &mut TraceScope, trace: Trace)
    ensures
        final(scope)@ == old(scope)@.push(trace@),
{
    let ghost prev = scope@;
    scope.traces.push(trace);
    proof {
        assert(scope@ =~= prev.push(scope.traces@.last()@));
    }
}

/// A copy of the traces collected so far in the scope, in emission order.
pub fn get_traces(scope: &TraceScope) -> (r: Vec<Trace>)
    ensures
        r@.len() == scope@.len(),
        forall|i: int| 0 <= i < r@.len() ==> r@[i]@ == scope@[i],
{
    let n = scope.traces.len();
    let mut out: Vec<Trace> = Vec::new();
    let mut i: usize = 0;
    while i < n
        invariant
            n == scope.traces@.len(),
            i <= n,
            out@.len() == i,
            forall|j: int| 0 <= j < i ==> out@[j]@ == scope@[j],
        decreases n - i,
    {
        let t = clone_trace(&scope.traces[i]);
        out.push(t);
        i += 1;
    }
    out
}

/// Empties the scope.
pub fn clear_traces(scope: &mut TraceScope)
    ensures
        final(scope)@ == Seq::<TraceModel>::empty(),
{
    scope.traces = Vec::new();
    proof {
        assert(scope@ =~= Seq::<TraceModel>::empty());
    }
}

/// A deep copy of one trace, exact on the model.
pub fn clone_trace(t: &Trace) -> (r: Trace)
    ensures
        r@ == t@,
{
    Trace {
        id: clone_opt_string(&t.id),
        start_ms: t.start_ms,
        end_ms: t.end_ms,
        duration_ms: t.duration_ms,
        model: clone_opt_string(&t.model),
        input: clone_value(&t.input),
        output: clone_value(&t.output),
        usage: t.usage,
        metadata: match &t.metadata {
            Some(v) => Some(clone_value(v)),
            None => None,
        },
        error: clone_opt_string(&t.error),
    }
}

/// Relies on std::time::SystemTime::now: the moment of the call as whole
/// milliseconds since the Unix epoch, zero when the clock reads earlier
/// than the epoch. Nothing is promised of the value: the clock is not a
/// function of the program's state.
#[verifier::external_body]
fn now_millis() -> u64 {
    match std::time::SystemTime::now().duration_since(std::time::UNIX_EPOCH) {
        Ok(d) => d.as_millis() as u64,
        Err(_) => 0,
    }
}

/// Step-by-step construction of a trace around one timed call.
pub struct TraceBuilder {
    start_ms: u64,
    id: Option<String>,
    model: Option<String>,
    metadata: Option<JsonValue>,
}

/// The mathematical model of a [`TraceBuilder`].
#[verifier::ext_equal]
pub struct TraceBuilderModel {
    pub start_ms: u64,
    pub id: Option<Seq<char>>,
    pub model: Option<Seq<char>>,
    pub metadata: Option<ValueModel>,
}

impl View for TraceBuilder {
    type V = TraceBuilderModel;

    closed spec fn view(&self) -> TraceBuilderModel {
        TraceBuilderModel {
            start_ms: self.start_ms,
            id: crate::types::opt_text(self.id),
            model: crate::types::opt_text(self.model),
            metadata: crate::types::opt_model(self.metadata),
        }
    }
}

impl Trace {
    /// Begins a trace whose start time is the moment of the call.
    pub fn start_now() -> (b: TraceBuilder)
        ensures
            b@.id is None,
            b@.model is None,
            b@.metadata is None,
    {
        TraceBuilder { start_ms: now_millis(), id: None, model: None, metadata: None }
    }
}

impl TraceBuilder {
    /// Sets the trace identifier.
    pub fn id(self, id: String) -> (r: TraceBuilder)
        ensures
            r@ == (TraceBuilderModel { id: Option::Some(id@), ..self@ }),
    {
        TraceBuilder { id: Some(id), ..self }
    }

    /// Sets the model name.
    pub fn model(self, model: String) -> (r: TraceBuilder)
        ensures
            r@ == (TraceBuilderModel { model: Option::Some(model@), ..self@ }),
    {
        TraceBuilder { model: Some(model), ..self }
    }

    /// Sets additional metadata.
    pub fn metadata(self, metadata: JsonValue) -> (r: TraceBuilder)
        ensures
            r@ == (TraceBuilderModel { metadata: Option::Some(metadata@), ..self@ }),
    {
        TraceBuilder { metadata: Some(metadata), ..self }
    }

    /// Completes the trace at the moment of the call; the duration is the
    /// elapsed time, absent when the clock ran backwards across the call.
    pub fn finish(self, input: JsonValue, output: JsonValue, usage: Option<TokenUsage>) -> (r:
        Trace)
        ensures
            r@.id == self@.id,
            r@.start_ms == self@.start_ms,
            r@.model == self@.model,
            r@.metadata == self@.metadata,
            r@.input == input@,
            r@.output == output@,
            r@.usage == usage,
            r@.error is None,
            r@.duration_ms == if r@.end_ms >= r@.start_ms {
                Option::Some((r@.end_ms - r@.start_ms) as u64)
            } else {
                Option::None::<u64>
            },
    {
        let end_ms = now_millis();
        let duration_ms = if end_ms >= self.start_ms {
            Some(end_ms - self.start_ms)
        } else {
            None
        };
        Trace {
            id: self.id,
            start_ms: self.start_ms,
            end_ms,
            duration_ms,
            model: self.model,
            input,
            output,
            usage,
            metadata: self.metadata,
            error: None,
        }
    }

    /// Completes the trace as failed at the moment of the call: the output
    /// is null, usage is absent and the error text is kept.
    pub fn finish_with_error(self, input: JsonValue, error: String) -> (r: Trace)
        ensures
            r@.id == self@.id,
            r@.start_ms == self@.start_ms,
            r@.model == self@.model,
            r@.metadata == self@.metadata,
            r@.input == input@,
            r@.output == ValueModel::Null,
            r@.usage is None,
            r@.error == Option::Some(error@),
            r@.duration_ms == if r@.end_ms >= r@.start_ms {
                Option::Some((r@.end_ms - r@.start_ms) as u64)
            } else {
                Option::None::<u64>
            },
    {
        let end_ms = now_millis();
        let duration_ms = if end_ms >= self.start_ms {
            Some(end_ms - self.start_ms)
        } else {
            None
        };
        Trace {
            id: self.id,
            start_ms: self.start_ms,
            end_ms,
            duration_ms,
            model: self.model,
            input,
            output: JsonValue::Null,
            usage: None,
            metadata: self.metadata,
            error: Some(error),
        }
    }
}

} // verus!
