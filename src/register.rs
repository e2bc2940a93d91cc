//! Registrants: each builds a new handler that wraps some slots of the one
//! it is given.
use vstd::prelude::*;

use crate::handler::{DelegateReimburse, FrameReturn, Handler, InspectFrameReturn, return_trace};
use crate::inspector::Inspector;
use crate::result::{Frame, InterpreterResult};

verus! {

/// Something that extends a handler. A registrant wraps slots of the handler
/// it is given and keeps the rest as they are.
pub trait RegisterHandler<F, R>: Sized {
    /// The handler type once this registrant has wrapped its slots.
    type Registered;

    /// The handler built around `handler`.
    spec fn spec_register_handler(self, handler: Handler<F, R>) -> Self::Registered;

    fn register_handler(self, handler: Handler<F, R>) -> (r: Self::Registered)
        ensures
            r == self.spec_register_handler(handler),
    ;
}

/// The registrant that keeps the engine's own behaviour: it wraps nothing.
#[derive(Clone, Copy, Debug, Default)]
pub struct MainnetHandle {}

impl<F, R> RegisterHandler<F, R> for MainnetHandle {
    type Registered = Handler<F, R>;

    open spec fn spec_register_handler(self, handler: Handler<F, R>) -> Handler<F, R> {
        handler
    }

    fn register_handler(self, handler: Handler<F, R>) -> (r: Handler<F, R>) {
        handler
    }
}

/// The registrant that puts an inspector on the return path: its
/// `call_end` or `create_end` sees each child's result before the layers
/// registered earlier do.
pub struct InspectorHandle<INS> {
    pub inspector: INS,
}

impl<F, R, INS> RegisterHandler<F, R> for InspectorHandle<INS> {
    type Registered = Handler<InspectFrameReturn<INS, F>, R>;

    open spec fn spec_register_handler(self, handler: Handler<F, R>) -> Handler<
        InspectFrameReturn<INS, F>,
        R,
    > {
        Handler {
            frame_return: InspectFrameReturn { inspector: self.inspector, inner: handler.frame_return },
            reimburse_caller: handler.reimburse_caller,
        }
    }

    fn register_handler(self, handler: Handler<F, R>) -> (r: Handler<InspectFrameReturn<INS, F>, R>) {
        Handler {
            frame_return: InspectFrameReturn { inspector: self.inspector, inner: handler.frame_return },
            reimburse_caller: handler.reimburse_caller,
        }
    }
}

/// A registrant with data of its own that wraps the reimbursement slot in a
/// layer that hands the work on unchanged.
#[derive(Clone, Copy, Debug, Default)]
pub struct ExternalData {
    pub flagg: bool,
}

impl<F, R> RegisterHandler<F, R> for ExternalData {
    type Registered = Handler<F, DelegateReimburse<R>>;

    open spec fn spec_register_handler(self, handler: Handler<F, R>) -> Handler<
        F,
        DelegateReimburse<R>,
    > {
        Handler {
            frame_return: handler.frame_return,
            reimburse_caller: DelegateReimburse { inner: handler.reimburse_caller },
        }
    }

    fn register_handler(self, handler: Handler<F, R>) -> (r: Handler<F, DelegateReimburse<R>>) {
        Handler {
            frame_return: handler.frame_return,
            reimburse_caller: DelegateReimburse { inner: handler.reimburse_caller },
        }
    }
}

/// Registering inspector `a`, then inspector `b`: on a frame's return `b`'s
/// `call_end` (`create_end` for a create) gets the raw result and the
/// context, `a`'s gets what `b` handed on and left, and the slot registered
/// before both gets what `a` handed on and left; a create's address goes
/// the same way.
pub proof fn lemma_return_path_order<CTX, A: Inspector<CTX>, B: Inspector<CTX>, F: FrameReturn<
    CTX,
>, R>(a: A, b: B, handler: Handler<F, R>, context: CTX, child: Frame, result: InterpreterResult)
    ensures
        !child.is_create ==> ({
            let first = InspectorHandle { inspector: a }.spec_register_handler(handler);
            let second = InspectorHandle { inspector: b }.spec_register_handler(first);
            let by_b = b.spec_call_end(context, result);
            let by_a = a.spec_call_end(by_b.1, by_b.2);
            let below = handler.frame_return.spec_frame_return(by_a.1, child, by_a.2);
            second.frame_return.spec_frame_return(context, child, result) == (
                InspectFrameReturn {
                    inspector: by_b.0,
                    inner: InspectFrameReturn { inspector: by_a.0, inner: below.0 },
                },
                below.1,
                below.2,
                below.3,
            )
        }),
        child.is_create ==> ({
            let first = InspectorHandle { inspector: a }.spec_register_handler(handler);
            let second = InspectorHandle { inspector: b }.spec_register_handler(first);
            let by_b = b.spec_create_end(context, result, child.created_address);
            let by_a = a.spec_create_end(by_b.1, by_b.2, by_b.3);
            let below = handler.frame_return.spec_frame_return(
                by_a.1,
                Frame { created_address: by_a.3, ..child },
                by_a.2,
            );
            second.frame_return.spec_frame_return(context, child, result) == (
                InspectFrameReturn {
                    inspector: by_b.0,
                    inner: InspectFrameReturn { inspector: by_a.0, inner: below.0 },
                },
                below.1,
                below.2,
                below.3,
            )
        }),
{
}

/// Two handlers built by registering equal inspectors, one then the other,
/// on equal handlers, and run from equal contexts over the same sequence of
/// returns, leave the same contexts and hand the parents the same frames
/// and results, in the same order; the built handlers are equal too, so the
/// reimbursement slot behaves alike as well.
pub proof fn lemma_registration_deterministic<CTX, A: Inspector<CTX>, B: Inspector<CTX>, F: FrameReturn<
    CTX,
>, R>(
    a1: A,
    b1: B,
    handler1: Handler<F, R>,
    context1: CTX,
    a2: A,
    b2: B,
    handler2: Handler<F, R>,
    context2: CTX,
    events: Seq<(Frame, InterpreterResult)>,
)
    requires
        a1 == a2,
        b1 == b2,
        handler1 == handler2,
        context1 == context2,
    ensures
        ({
            let built1 = InspectorHandle { inspector: b1 }.spec_register_handler(
                InspectorHandle { inspector: a1 }.spec_register_handler(handler1),
            );
            let built2 = InspectorHandle { inspector: b2 }.spec_register_handler(
                InspectorHandle { inspector: a2 }.spec_register_handler(handler2),
            );
            &&& built1 == built2
            &&& return_trace::<CTX, InspectFrameReturn<B, InspectFrameReturn<A, F>>>(
                built1.frame_return,
                context1,
                events,
            ) == return_trace::<CTX, InspectFrameReturn<B, InspectFrameReturn<A, F>>>(
                built2.frame_return,
                context2,
                events,
            )
        }),
{
}

} // verus!
