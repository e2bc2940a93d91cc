//! The capability interface through which observers follow execution.
use vstd::prelude::*;

use crate::result::{Address, B256, CallInputs, CreateInputs, Interpreter, InterpreterResult};

verus! {

/// Hooks fired at fixed points of a frame's life; the shared context `CTX`
/// is handed to each of them, exclusively, for the length of the call.
///
/// The observation hooks and the two request hooks do nothing by default, so
/// an implementation overrides only those it cares about. The two hooks on
/// the return path rewrite the result on its way to the parent frame, and
/// the handler's own contract is stated through them: each comes with a
/// spec function giving the inspector and the context after the hook, and
/// what it hands back.
pub trait Inspector<CTX>: Sized {
    /// Fires once per frame, before its first instruction.
    fn initialize_interp(&mut self, interp: &Interpreter, context: &mut CTX) {
    }

    /// Fires before each instruction.
    fn step(&mut self, interp: &Interpreter, context: &mut CTX) {
    }

    /// Fires after each instruction.
    fn step_end(&mut self, interp: &Interpreter, context: &mut CTX) {
    }

    /// Fires when the running code emits a log record.
    fn log(&mut self, context: &mut CTX, address: &Address, topics: &Vec<B256>, data: &Vec<u8>) {
    }

    /// Fires before a sub-call. A result handed back stands for the
    /// sub-call's outcome, which then does not run.
    fn call(&mut self, context: &mut CTX, inputs: &CallInputs) -> Option<InterpreterResult> {
        None
    }

    /// Fires before a sub-create; as [`Inspector::call`], with the address
    /// the create would have made.
    fn create(&mut self, context: &mut CTX, inputs: &CreateInputs) -> Option<
        (InterpreterResult, Option<Address>),
    > {
        None
    }

    /// The inspector and the context after `call_end` on `result`, and the
    /// result it hands on.
    spec fn spec_call_end(self, context: CTX, result: InterpreterResult) -> (
        Self,
        CTX,
        InterpreterResult,
    );

    /// Fires after a sub-call completed (really or by a short-circuit); may
    /// rewrite its result.
    fn call_end(&mut self, context: &mut CTX, result: InterpreterResult) -> (r: InterpreterResult)
        ensures
            (*final(self), *final(context), r) == old(self).spec_call_end(*old(context), result),
    ;

    /// The inspector and the context after `create_end`, and the result and
    /// address it hands on.
    spec fn spec_create_end(
        self,
        context: CTX,
        result: InterpreterResult,
        address: Option<Address>,
    ) -> (
        Self,
        CTX,
        InterpreterResult,
        Option<Address>,
    );

    /// Fires after a sub-create completed; may rewrite its result and the
    /// address it made.
    fn create_end(
        &mut self,
        context: &mut CTX,
        result: InterpreterResult,
        address: Option<Address>,
    ) -> (r: (InterpreterResult, Option<Address>))
        ensures
            (*final(self), *final(context), r.0, r.1) == old(self).spec_create_end(
                *old(context),
                result,
                address,
            ),
    ;
}

} // verus!
