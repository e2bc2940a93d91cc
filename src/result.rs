//! Passive data carried between layers: execution results, frames and the
//! inputs of sub-calls.
use vstd::prelude::*;

use crate::gas::Gas;

verus! {

/// Why a frame stopped with an error.
#[derive(Clone, Copy, Debug, PartialEq, Eq, Structural)]
pub enum ErrorKind {
    OutOfGas,
    InvalidOpcode,
    InvalidJump,
    StackUnderflow,
    StackOverflow,
    CallTooDeep,
}

/// Status tag of an execution result.
#[derive(Clone, Copy, Debug, PartialEq, Eq, Structural)]
pub enum InstructionResult {
    Continue,
    Halt,
    Revert,
    Error(ErrorKind),
}

impl InstructionResult {
    pub open spec fn spec_is_error(self) -> bool {
        self is Error
    }

    /// Whether the status is an error (a revert is not one).
    pub fn is_error(&self) -> (r: bool)
        ensures
            r == self.spec_is_error(),
    {
        match self {
            InstructionResult::Error(_) => true,
            _ => false,
        }
    }
}

/// A 20-byte account address.
#[derive(Clone, Copy, Debug)]
pub struct Address {
    pub bytes: [u8; 20],
}

/// A 32-byte word, as a log topic.
pub type B256 = [u8; 32];

/// Outcome of one frame: its status, its output and its gas counter.
#[derive(Debug)]
pub struct InterpreterResult {
    pub result: InstructionResult,
    pub output: Vec<u8>,
    pub gas: Gas,
}

/// Descriptor of a call or create frame that is returning to its parent.
#[derive(Clone, Copy, Debug)]
pub struct Frame {
    pub is_create: bool,
    /// The address a create made; none before the create completes.
    pub created_address: Option<Address>,
}

/// What a sub-call is asked to do.
#[derive(Debug)]
pub struct CallInputs {
    pub target: Address,
    pub caller: Address,
    pub value: u64,
    pub input: Vec<u8>,
    pub gas_limit: u64,
}

/// What a sub-create is asked to do.
#[derive(Debug)]
pub struct CreateInputs {
    pub caller: Address,
    pub value: u64,
    pub init_code: Vec<u8>,
    pub gas_limit: u64,
}

/// What an inspector sees of the interpreter at an instruction boundary.
#[derive(Clone, Copy, Debug)]
pub struct Interpreter {
    pub program_counter: usize,
    pub gas: Gas,
}

impl Interpreter {
    pub fn program_counter(&self) -> (r: usize)
        ensures
            r == self.program_counter,
    {
        self.program_counter
    }
}

} // verus!
