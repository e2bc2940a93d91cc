//! An inspector that follows a frame's gas by watching step boundaries and
//! call and create completions.
use vstd::prelude::*;

use crate::gas::Gas;
use crate::inspector::Inspector;
use crate::result::{Address, B256, CallInputs, CreateInputs, Interpreter, InterpreterResult};

verus! {

/// Keeps the gas remaining as of the last step and a running cost figure.
#[derive(Clone, Copy, Debug)]
pub struct GasInspector {
    pub gas_remaining: u64,
    pub last_gas_cost: u64,
}

impl Default for GasInspector {
    fn default() -> (r: GasInspector)
        ensures
            r == (GasInspector { gas_remaining: 0, last_gas_cost: 0 }),
    {
        GasInspector { gas_remaining: 0, last_gas_cost: 0 }
    }
}

impl GasInspector {
    /// Gas remaining as of the last step (or the frame's limit before any).
    pub fn gas_remaining(&self) -> (r: u64)
        ensures
            r == self.gas_remaining,
    {
        self.gas_remaining
    }

    /// The running cost figure of the last step.
    pub fn last_gas_cost(&self) -> (r: u64)
        ensures
            r == self.last_gas_cost,
    {
        self.last_gas_cost
    }

    /// At frame start the whole limit remains.
    pub open spec fn spec_initialize(self, interp: Interpreter) -> GasInspector {
        GasInspector { gas_remaining: interp.gas.limit, ..self }
    }

    /// After a step, the remaining gas is the interpreter's, and the cost
    /// figure is the previous remaining gas less the previous cost figure,
    /// clamped at zero.
    pub open spec fn spec_step_end(self, interp: Interpreter) -> GasInspector {
        GasInspector {
            gas_remaining: interp.gas.remaining,
            last_gas_cost: sat_sub(self.gas_remaining, self.last_gas_cost),
        }
    }

    /// After a sub-call that ended in error nothing remains; any other
    /// outcome leaves the inspector as it was.
    pub open spec fn spec_after_call(self, result: InterpreterResult) -> GasInspector {
        if result.result.spec_is_error() {
            GasInspector { gas_remaining: 0, ..self }
        } else {
            self
        }
    }
}

/// `a - b`, or zero where `b` exceeds `a`.
pub open spec fn sat_sub(a: u64, b: u64) -> u64 {
    if a >= b {
        (a - b) as u64
    } else {
        0
    }
}

/// What a completed sub-call becomes: on an error status the whole remaining
/// balance is charged as its cost, so that nothing remains.
pub open spec fn forfeit_on_error(result: InterpreterResult) -> InterpreterResult {
    if result.result.spec_is_error() {
        InterpreterResult {
            gas: result.gas.spec_record_cost(result.gas.remaining),
            ..result
        }
    } else {
        result
    }
}

impl<CTX> Inspector<CTX> for GasInspector {
    fn initialize_interp(&mut self, interp: &Interpreter, context: &mut CTX)
        ensures
            *final(self) == old(self).spec_initialize(*interp),
            *final(context) == *old(context),
    {
        self.gas_remaining = interp.gas.limit();
    }

    fn step(&mut self, interp: &Interpreter, context: &mut CTX)
        ensures
            *final(self) == *old(self),
            *final(context) == *old(context),
    {
    }

    fn step_end(&mut self, interp: &Interpreter, context: &mut CTX)
        ensures
            *final(self) == old(self).spec_step_end(*interp),
            *final(context) == *old(context),
    {
        let last_gas = self.gas_remaining;
        self.gas_remaining = interp.gas.remaining();
        self.last_gas_cost = last_gas.saturating_sub(self.last_gas_cost);
    }

    fn log(&mut self, context: &mut CTX, address: &Address, topics: &Vec<B256>, data: &Vec<u8>)
        ensures
            *final(self) == *old(self),
            *final(context) == *old(context),
    {
    }

    fn call(&mut self, context: &mut CTX, inputs: &CallInputs) -> (r: Option<InterpreterResult>)
        ensures
            r is None,
            *final(self) == *old(self),
            *final(context) == *old(context),
    {
        None
    }

    fn create(&mut self, context: &mut CTX, inputs: &CreateInputs) -> (r: Option<
        (InterpreterResult, Option<Address>),
    >)
        ensures
            r is None,
            *final(self) == *old(self),
            *final(context) == *old(context),
    {
        None
    }

    open spec fn spec_call_end(self, context: CTX, result: InterpreterResult) -> (
        Self,
        CTX,
        InterpreterResult,
    ) {
        (self.spec_after_call(result), context, forfeit_on_error(result))
    }

    fn call_end(&mut self, context: &mut CTX, result: InterpreterResult) -> (r: InterpreterResult) {
        let mut result = result;
        if result.result.is_error() {
            let remaining = result.gas.remaining();
            let _ = result.gas.record_cost(remaining);
            self.gas_remaining = 0;
        }
        result
    }

    open spec fn spec_create_end(
        self,
        context: CTX,
        result: InterpreterResult,
        address: Option<Address>,
    ) -> (Self, CTX, InterpreterResult, Option<Address>) {
        (self, context, result, address)
    }

    fn create_end(
        &mut self,
        context: &mut CTX,
        result: InterpreterResult,
        address: Option<Address>,
    ) -> (r: (InterpreterResult, Option<Address>)) {
        (result, address)
    }
}

/// A step never raises the remaining gas above its previous value where the
/// instruction refunded nothing, nor above the frame's limit.
pub proof fn lemma_step_end_monotone(inspector: GasInspector, interp: Interpreter)
    requires
        interp.gas.wf(),
        interp.gas.remaining <= inspector.gas_remaining,
    ensures
        inspector.spec_step_end(interp).gas_remaining <= inspector.gas_remaining,
        inspector.spec_step_end(interp).gas_remaining <= interp.gas.limit,
{
}

/// The cost figure clamps at zero where the previous cost figure exceeds the
/// previous remaining gas, and is their difference otherwise.
pub proof fn lemma_step_end_saturates(inspector: GasInspector, interp: Interpreter)
    ensures
        inspector.last_gas_cost > inspector.gas_remaining ==> inspector.spec_step_end(
            interp,
        ).last_gas_cost == 0,
        inspector.last_gas_cost <= inspector.gas_remaining ==> inspector.spec_step_end(
            interp,
        ).last_gas_cost == inspector.gas_remaining - inspector.last_gas_cost,
{
}

/// After a sub-call that ended in error, no gas remains, to the inspector or
/// in the result, and the result's recorded cost is what remained at the
/// error; status and output are kept.
pub proof fn lemma_call_end_forfeits<CTX>(
    inspector: GasInspector,
    context: CTX,
    result: InterpreterResult,
)
    requires
        result.result.spec_is_error(),
    ensures
        ({
            let (after, context_after, r) = <GasInspector as Inspector<CTX>>::spec_call_end(
                inspector,
                context,
                result,
            );
            &&& after.gas_remaining == 0
            &&& context_after == context
            &&& after.last_gas_cost == inspector.last_gas_cost
            &&& r.gas.remaining == 0
            &&& r.gas.last_cost == result.gas.remaining
            &&& r.gas.limit == result.gas.limit
            &&& r.result == result.result
            &&& r.output == result.output
        }),
{
}

/// What the inspector records over a frame's steps: after each step, the
/// gas remaining and the cost figure.
pub open spec fn step_trace(inspector: GasInspector, steps: Seq<Interpreter>) -> Seq<(u64, u64)>
    decreases steps.len(),
{
    if steps.len() == 0 {
        seq![]
    } else {
        let next = inspector.spec_step_end(steps[0]);
        seq![(next.gas_remaining, next.last_gas_cost)] + step_trace(next, steps.drop_first())
    }
}

/// The trace has one entry per step, and the gas remaining after each step
/// is the interpreter's at that step.
pub proof fn lemma_step_trace_remaining(inspector: GasInspector, steps: Seq<Interpreter>)
    ensures
        step_trace(inspector, steps).len() == steps.len(),
        forall|i: int|
            0 <= i < steps.len() ==> #[trigger] step_trace(inspector, steps)[i].0
                == steps[i].gas.remaining,
    decreases steps.len(),
{
    if steps.len() > 0 {
        let next = inspector.spec_step_end(steps[0]);
        lemma_step_trace_remaining(next, steps.drop_first());
        assert forall|i: int| 0 <= i < steps.len() implies #[trigger] step_trace(
            inspector,
            steps,
        )[i].0 == steps[i].gas.remaining by {
            if i > 0 {
                assert(steps.drop_first()[i - 1] == steps[i]);
            }
        }
    }
}

/// Over steps that refund nothing, the recorded gas remaining never rises
/// from one step to the next, nor above the frame's limit.
pub proof fn lemma_step_trace_monotone(inspector: GasInspector, steps: Seq<Interpreter>)
    requires
        forall|i: int| 0 <= i < steps.len() ==> (#[trigger] steps[i]).gas.wf(),
        forall|i: int|
            0 < i < steps.len() ==> (#[trigger] steps[i]).gas.remaining <= steps[i - 1].gas.remaining,
    ensures
        forall|i: int|
            0 < i < steps.len() ==> #[trigger] step_trace(inspector, steps)[i].0 <= step_trace(
                inspector,
                steps,
            )[i - 1].0,
        forall|i: int|
            0 <= i < steps.len() ==> #[trigger] step_trace(inspector, steps)[i].0
                <= steps[i].gas.limit,
{
    lemma_step_trace_remaining(inspector, steps);
    assert forall|i: int| 0 < i < steps.len() implies #[trigger] step_trace(inspector, steps)[i].0
        <= step_trace(inspector, steps)[i - 1].0 by {
        assert(step_trace(inspector, steps)[i - 1].0 == steps[i - 1].gas.remaining);
    }
}

/// An event that the accounting inspector follows.
pub enum GasEvent {
    /// A frame starts.
    Initialize(Interpreter),
    /// An instruction has run.
    StepEnd(Interpreter),
    /// A sub-call completed with this result.
    CallEnd(InterpreterResult),
    /// A sub-create completed with this result and address.
    CreateEnd(InterpreterResult, Option<Address>),
}

/// The inspector after `event`, and the result it hands on, where the event
/// is a completion. The context is left as it was by every event.
pub open spec fn spec_gas_event(inspector: GasInspector, event: GasEvent) -> (
    GasInspector,
    Option<InterpreterResult>,
) {
    match event {
        GasEvent::Initialize(interp) => (inspector.spec_initialize(interp), None),
        GasEvent::StepEnd(interp) => (inspector.spec_step_end(interp), None),
        GasEvent::CallEnd(result) => (inspector.spec_after_call(result), Some(
            forfeit_on_error(result),
        )),
        GasEvent::CreateEnd(result, address) => (inspector, Some(result)),
    }
}

/// The accounting trace over a sequence of events: after each, the gas
/// remaining, the cost figure and the result handed on, if any.
pub open spec fn event_trace(inspector: GasInspector, events: Seq<GasEvent>) -> Seq<
    (u64, u64, Option<InterpreterResult>),
>
    decreases events.len(),
{
    if events.len() == 0 {
        seq![]
    } else {
        let (next, handed) = spec_gas_event(inspector, events[0]);
        seq![(next.gas_remaining, next.last_gas_cost, handed)] + event_trace(
            next,
            events.drop_first(),
        )
    }
}

/// Each hook's contract is the matching event: what `call_end` and
/// `create_end` do to the inspector, the context and the result.
pub proof fn lemma_hooks_follow_events<CTX>(
    inspector: GasInspector,
    context: CTX,
    result: InterpreterResult,
    address: Option<Address>,
)
    ensures
        ({
            let by_hook = <GasInspector as Inspector<CTX>>::spec_call_end(
                inspector,
                context,
                result,
            );
            let by_event = spec_gas_event(inspector, GasEvent::CallEnd(result));
            by_hook == (by_event.0, context, by_event.1->0)
        }),
        ({
            let by_hook = <GasInspector as Inspector<CTX>>::spec_create_end(
                inspector,
                context,
                result,
                address,
            );
            let by_event = spec_gas_event(inspector, GasEvent::CreateEnd(result, address));
            by_hook == (by_event.0, context, by_event.1->0, address)
        }),
{
}

/// Two inspectors in equal states fed the same events leave the same
/// accounting trace and hand on the same results.
pub proof fn lemma_event_trace_deterministic(
    first: GasInspector,
    second: GasInspector,
    events: Seq<GasEvent>,
)
    requires
        first == second,
    ensures
        event_trace(first, events) == event_trace(second, events),
{
}

} // verus!
