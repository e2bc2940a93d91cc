//! A handler: one composable slot per overridable execution event. Each
//! slot is a chain of layers, each layer holding the one it wraps.
use vstd::prelude::*;

use crate::gas::Gas;
use crate::inspector::Inspector;
use crate::result::{Frame, InterpreterResult};

verus! {

/// The return-path slot: what a child frame hands its parent.
pub trait FrameReturn<CTX>: Sized {
    /// The slot and the context after the return, the child frame as it
    /// leaves it and the result handed to the parent.
    spec fn spec_frame_return(self, context: CTX, child: Frame, result: InterpreterResult) -> (
        Self,
        CTX,
        Frame,
        InterpreterResult,
    );

    fn frame_return(&mut self, context: &mut CTX, child: &mut Frame, result: InterpreterResult) -> (r:
        InterpreterResult)
        ensures
            (*final(self), *final(context), *final(child), r) == old(self).spec_frame_return(
                *old(context),
                *old(child),
                result,
            ),
    ;
}

/// The gas-reimbursement slot: how much gas goes back to the caller at the
/// end of a transaction.
pub trait ReimburseCaller<CTX>: Sized {
    /// The slot and the context after reimbursing for `gas`, and the units
    /// handed back.
    spec fn spec_reimburse_caller(self, context: CTX, gas: Gas) -> (Self, CTX, u64);

    fn reimburse_caller(&mut self, context: &mut CTX, gas: &Gas) -> (r: u64)
        ensures
            (*final(self), *final(context), r) == old(self).spec_reimburse_caller(*old(context), *gas),
    ;
}

/// The engine's own frame return: the result goes to the parent unchanged.
#[derive(Clone, Copy, Debug, Default)]
pub struct MainnetFrameReturn {}

impl<CTX> FrameReturn<CTX> for MainnetFrameReturn {
    open spec fn spec_frame_return(self, context: CTX, child: Frame, result: InterpreterResult) -> (
        Self,
        CTX,
        Frame,
        InterpreterResult,
    ) {
        (self, context, child, result)
    }

    fn frame_return(&mut self, context: &mut CTX, child: &mut Frame, result: InterpreterResult) -> (r:
        InterpreterResult) {
        result
    }
}

/// The units the caller gets back: what remains plus the refund, saturating
/// at the largest `u64`.
pub open spec fn unspent_and_refund(gas: Gas) -> u64 {
    if gas.remaining + gas.refunded > u64::MAX {
        u64::MAX
    } else {
        (gas.remaining + gas.refunded) as u64
    }
}

/// The engine's own reimbursement: unspent gas plus the refund.
#[derive(Clone, Copy, Debug, Default)]
pub struct MainnetReimburse {}

impl<CTX> ReimburseCaller<CTX> for MainnetReimburse {
    open spec fn spec_reimburse_caller(self, context: CTX, gas: Gas) -> (Self, CTX, u64) {
        (self, context, unspent_and_refund(gas))
    }

    fn reimburse_caller(&mut self, context: &mut CTX, gas: &Gas) -> (r: u64) {
        gas.remaining().saturating_add(gas.refunded())
    }
}

/// A return-path layer that lets an inspector rewrite the child's result
/// before handing it to the layer it wraps.
pub struct InspectFrameReturn<INS, F> {
    pub inspector: INS,
    pub inner: F,
}

impl<CTX, INS: Inspector<CTX>, F: FrameReturn<CTX>> FrameReturn<CTX> for InspectFrameReturn<INS, F> {
    /// A create goes through `create_end`, whose address the child keeps; a
    /// call goes through `call_end`. The wrapped layer then gets the child
    /// and the rewritten result.
    open spec fn spec_frame_return(self, context: CTX, child: Frame, result: InterpreterResult) -> (
        Self,
        CTX,
        Frame,
        InterpreterResult,
    ) {
        if child.is_create {
            let ended = self.inspector.spec_create_end(context, result, child.created_address);
            let child2 = Frame { created_address: ended.3, ..child };
            let inner = self.inner.spec_frame_return(ended.1, child2, ended.2);
            (InspectFrameReturn { inspector: ended.0, inner: inner.0 }, inner.1, inner.2, inner.3)
        } else {
            let ended = self.inspector.spec_call_end(context, result);
            let inner = self.inner.spec_frame_return(ended.1, child, ended.2);
            (InspectFrameReturn { inspector: ended.0, inner: inner.0 }, inner.1, inner.2, inner.3)
        }
    }

    fn frame_return(&mut self, context: &mut CTX, child: &mut Frame, result: InterpreterResult) -> (r:
        InterpreterResult) {
        let result = if child.is_create {
            let (result, address) = self.inspector.create_end(
                context,
                result,
                child.created_address,
            );
            child.created_address = address;
            result
        } else {
            self.inspector.call_end(context, result)
        };
        self.inner.frame_return(context, child, result)
    }
}

/// A reimbursement layer that hands the work to the layer it wraps.
pub struct DelegateReimburse<R> {
    pub inner: R,
}

impl<CTX, R: ReimburseCaller<CTX>> ReimburseCaller<CTX> for DelegateReimburse<R> {
    open spec fn spec_reimburse_caller(self, context: CTX, gas: Gas) -> (Self, CTX, u64) {
        let inner = self.inner.spec_reimburse_caller(context, gas);
        (DelegateReimburse { inner: inner.0 }, inner.1, inner.2)
    }

    fn reimburse_caller(&mut self, context: &mut CTX, gas: &Gas) -> (r: u64) {
        self.inner.reimburse_caller(context, gas)
    }
}

/// The slots of one execution. Registration builds a new handler around
/// the slots of the old one; a handler is not changed once built.
pub struct Handler<F, R> {
    pub frame_return: F,
    pub reimburse_caller: R,
}

impl Handler<MainnetFrameReturn, MainnetReimburse> {
    /// The engine's own handler, with no layer registered.
    pub fn mainnet() -> (r: Handler<MainnetFrameReturn, MainnetReimburse>)
        ensures
            r == (Handler { frame_return: MainnetFrameReturn {}, reimburse_caller: MainnetReimburse {} }),
    {
        Handler { frame_return: MainnetFrameReturn {}, reimburse_caller: MainnetReimburse {} }
    }
}

/// What a slot hands to the parents over a sequence of returns, each run
/// on the slot and the context as the return before it left them: the
/// context, the child frame and the result after each.
pub open spec fn return_trace<CTX, F: FrameReturn<CTX>>(
    slot: F,
    context: CTX,
    events: Seq<(Frame, InterpreterResult)>,
) -> Seq<(CTX, Frame, InterpreterResult)>
    decreases events.len(),
{
    if events.len() == 0 {
        seq![]
    } else {
        let out = slot.spec_frame_return(context, events[0].0, events[0].1);
        seq![(out.1, out.2, out.3)] + return_trace::<CTX, F>(out.0, out.1, events.drop_first())
    }
}

} // verus!
