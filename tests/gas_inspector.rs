use revm_inspect::gas::Gas;
use revm_inspect::gas_inspector::GasInspector;
use revm_inspect::inspector::Inspector;
use revm_inspect::result::{
    Address, CallInputs, CreateInputs, ErrorKind, InstructionResult, Interpreter, InterpreterResult,
};

const PUSH1_COST: u64 = 3;
const JUMPI_COST: u64 = 10;
const JUMPDEST_COST: u64 = 1;
const STOP_COST: u64 = 0;

/// Runs the steps `(pc, cost)` of one frame through an inspector that
/// records the gas remaining after each, as seen by a gas inspector.
fn trace(limit: u64, steps: &[(usize, u64)]) -> (Vec<(usize, u64)>, Vec<u64>) {
    let mut ctx = ();
    let mut gas_inspector = GasInspector::default();
    let mut interp = Interpreter { program_counter: 0, gas: Gas::new(limit) };
    gas_inspector.initialize_interp(&interp, &mut ctx);
    let mut remaining_steps = Vec::new();
    let mut costs = Vec::new();
    for &(pc, cost) in steps {
        interp.program_counter = pc;
        gas_inspector.step(&interp, &mut ctx);
        let pc = interp.program_counter();
        assert!(interp.gas.record_cost(cost));
        gas_inspector.step_end(&interp, &mut ctx);
        remaining_steps.push((pc, gas_inspector.gas_remaining()));
        costs.push(gas_inspector.last_gas_cost());
    }
    (remaining_steps, costs)
}

// PUSH1 1; PUSH1 11; JUMPI; PUSH1 1; PUSH1 1; PUSH1 1; JUMPDEST; STOP
fn jump_program() -> Vec<(usize, u64)> {
    vec![
        (0, PUSH1_COST),
        (2, PUSH1_COST),
        (4, JUMPI_COST),
        (11, JUMPDEST_COST),
        (12, STOP_COST),
    ]
}

#[test]
fn test_gas_inspector() {
    // a transaction limit of 21100, less the 21000 a plain call pays up front
    let frame_limit: u64 = 21100 - 21000;
    let (remaining_steps, _) = trace(frame_limit, &jump_program());

    // starting from 100gas
    let steps = vec![
        // push1 -3
        (0, 97),
        // push1 -3
        (2, 94),
        // jumpi -10
        (4, 84),
        // jumpdest 1
        (11, 83),
        // stop 0
        (12, 83),
    ];

    assert_eq!(remaining_steps, steps);
}

#[test]
fn cost_figure_follows_recurrence() {
    // previous remaining less previous cost figure, clamped at zero
    let (_, costs) = trace(100, &jump_program());
    assert_eq!(costs, vec![100, 0, 94, 0, 83]);
}

#[test]
fn cost_figure_clamps_at_zero() {
    let mut ctx = ();
    let mut inspector = GasInspector { gas_remaining: 5, last_gas_cost: 9 };
    let interp = Interpreter { program_counter: 0, gas: Gas::new(4) };
    inspector.step_end(&interp, &mut ctx);
    assert_eq!(inspector.last_gas_cost(), 0);
    assert_eq!(inspector.gas_remaining(), 4);
}

#[test]
fn remaining_never_rises_within_frame() {
    let (remaining_steps, _) = trace(100, &jump_program());
    let mut previous = 100;
    for (_, remaining) in remaining_steps {
        assert!(remaining <= previous);
        assert!(remaining <= 100);
        previous = remaining;
    }
}

#[test]
fn initialize_takes_frame_limit() {
    let mut ctx = ();
    let mut inspector = GasInspector { gas_remaining: 1, last_gas_cost: 2 };
    let mut gas = Gas::new(500);
    assert!(gas.record_cost(120));
    let interp = Interpreter { program_counter: 0, gas };
    inspector.initialize_interp(&interp, &mut ctx);
    assert_eq!(inspector.gas_remaining(), 500);
    assert_eq!(inspector.last_gas_cost(), 2);
}

fn result_with(status: InstructionResult, limit: u64, spent: u64) -> InterpreterResult {
    let mut gas = Gas::new(limit);
    assert!(gas.record_cost(spent));
    InterpreterResult { result: status, output: vec![1, 2, 3], gas }
}

#[test]
fn error_call_forfeits_remaining() {
    let mut ctx = ();
    let mut inspector = GasInspector { gas_remaining: 40, last_gas_cost: 7 };
    let result = result_with(InstructionResult::Error(ErrorKind::OutOfGas), 100, 30);
    let out = inspector.call_end(&mut ctx, result);
    assert_eq!(inspector.gas_remaining(), 0);
    assert_eq!(inspector.last_gas_cost(), 7);
    assert_eq!(out.gas.remaining(), 0);
    assert_eq!(out.gas.last_cost(), 70);
    assert_eq!(out.gas.spent(), 100);
    assert_eq!(out.result, InstructionResult::Error(ErrorKind::OutOfGas));
    assert_eq!(out.output, vec![1, 2, 3]);
}

#[test]
fn revert_and_halt_pass_through_call_end() {
    let mut ctx = ();
    for status in [InstructionResult::Revert, InstructionResult::Halt, InstructionResult::Continue] {
        let mut inspector = GasInspector { gas_remaining: 40, last_gas_cost: 7 };
        let out = inspector.call_end(&mut ctx, result_with(status, 100, 30));
        assert_eq!(inspector.gas_remaining(), 40);
        assert_eq!(out.gas.remaining(), 70);
        assert_eq!(out.gas.last_cost(), 30);
        assert_eq!(out.result, status);
    }
}

#[test]
fn create_end_passes_through() {
    let mut ctx = ();
    let mut inspector = GasInspector { gas_remaining: 40, last_gas_cost: 7 };
    let address = revm_inspect::result::Address { bytes: [0x10; 20] };
    let result = result_with(InstructionResult::Error(ErrorKind::InvalidOpcode), 100, 30);
    let (out, out_address) = inspector.create_end(&mut ctx, result, Some(address));
    assert_eq!(inspector.gas_remaining(), 40);
    assert_eq!(out.gas.remaining(), 70);
    assert_eq!(out_address.map(|a| a.bytes), Some([0x10; 20]));
}

#[test]
fn gas_inspector_leaves_requests_and_steps_alone() {
    let mut ctx: u32 = 9;
    let mut inspector = GasInspector { gas_remaining: 40, last_gas_cost: 7 };
    let someone = Address { bytes: [0x22; 20] };
    let call = CallInputs { target: someone, caller: someone, value: 1, input: vec![1], gas_limit: 30 };
    assert!(inspector.call(&mut ctx, &call).is_none());
    let create = CreateInputs { caller: someone, value: 0, init_code: vec![0x60], gas_limit: 30 };
    assert!(inspector.create(&mut ctx, &create).is_none());
    let interp = Interpreter { program_counter: 3, gas: Gas::new(5) };
    inspector.step(&interp, &mut ctx);
    inspector.log(&mut ctx, &someone, &vec![[0u8; 32]], &vec![1, 2]);
    assert_eq!(inspector.gas_remaining(), 40);
    assert_eq!(inspector.last_gas_cost(), 7);
    assert_eq!(ctx, 9);
}
