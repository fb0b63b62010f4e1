use mdpu::{run, BinaryOp, Fault, Instruction, Opcode, ProcessingUnit, UnaryOp};

fn binary(op: BinaryOp, a: i32, b: i32) -> i32 {
    let mut pu = ProcessingUnit::initialize(3, 1);
    let program = [
        Instruction { opcode: Opcode::LoadImmediate, reg1: 0, reg2: 0, reg3: 0, addr: 0, immediate: a },
        Instruction { opcode: Opcode::LoadImmediate, reg1: 1, reg2: 0, reg3: 0, addr: 0, immediate: b },
    ];
    run(&mut pu, &program, 10).unwrap();
    pu.binary(op, 0, 1, 2).unwrap();
    pu.read_register(2).unwrap()
}

fn three(opcode: Opcode, a: i32, b: i32) -> Result<i32, Fault> {
    let mut pu = ProcessingUnit::initialize(3, 1);
    let program = [
        Instruction { opcode: Opcode::LoadImmediate, reg1: 0, reg2: 0, reg3: 0, addr: 0, immediate: a },
        Instruction { opcode: Opcode::LoadImmediate, reg1: 1, reg2: 0, reg3: 0, addr: 0, immediate: b },
        Instruction { opcode, reg1: 0, reg2: 1, reg3: 2, addr: 0, immediate: 0 },
    ];
    run(&mut pu, &program, 10).map(|s| s.registers[2])
}

fn two(opcode: Opcode, a: i32) -> i32 {
    let mut pu = ProcessingUnit::initialize(2, 1);
    let program = [
        Instruction { opcode: Opcode::LoadImmediate, reg1: 0, reg2: 0, reg3: 0, addr: 0, immediate: a },
        Instruction { opcode, reg1: 0, reg2: 1, reg3: 0, addr: 0, immediate: 0 },
    ];
    run(&mut pu, &program, 10).unwrap().registers[1]
}

fn in_place(opcode: Opcode, a: i32) -> i32 {
    let mut pu = ProcessingUnit::initialize(1, 1);
    let program = [
        Instruction { opcode: Opcode::LoadImmediate, reg1: 0, reg2: 0, reg3: 0, addr: 0, immediate: a },
        Instruction { opcode, reg1: 0, reg2: 0, reg3: 0, addr: 0, immediate: 0 },
    ];
    run(&mut pu, &program, 10).unwrap().registers[0]
}

#[test]
fn arithmetic_wraps_on_overflow() {
    assert_eq!(three(Opcode::Add, i32::MAX, 1), Ok(i32::MIN));
    assert_eq!(three(Opcode::Sub, i32::MIN, 1), Ok(i32::MAX));
    assert_eq!(three(Opcode::Mul, 65536, 65536), Ok(0));
    assert_eq!(three(Opcode::Mul, -7, 6), Ok(-42));
    assert_eq!(three(Opcode::Add, 2, 3), Ok(5));
}

#[test]
fn division_truncates_toward_zero() {
    assert_eq!(three(Opcode::Div, -7, 2), Ok(-3));
    assert_eq!(three(Opcode::Div, 7, -2), Ok(-3));
    assert_eq!(three(Opcode::Div, -7, -2), Ok(3));
    assert_eq!(three(Opcode::Div, i32::MIN, -1), Ok(i32::MIN));
}

#[test]
fn remainder_follows_dividend_sign() {
    assert_eq!(three(Opcode::Mod, -7, 2), Ok(-1));
    assert_eq!(three(Opcode::Mod, 7, -2), Ok(1));
    assert_eq!(three(Opcode::Mod, 7, 3), Ok(1));
    assert_eq!(three(Opcode::Mod, i32::MIN, -1), Ok(0));
}

#[test]
fn cmp_subtracts_and_test_ands() {
    assert_eq!(three(Opcode::Cmp, 3, 10), Ok(-7));
    assert_eq!(three(Opcode::Test, 0b1100, 0b1010), Ok(0b1000));
}

#[test]
fn bitwise_operations() {
    assert_eq!(three(Opcode::And, 0b1100, 0b1010), Ok(0b1000));
    assert_eq!(three(Opcode::Or, 0b1100, 0b1010), Ok(0b1110));
    assert_eq!(three(Opcode::Xor, 0b1100, 0b1010), Ok(0b0110));
    assert_eq!(two(Opcode::Not, 0), -1);
}

#[test]
fn shift_amounts_are_taken_modulo_width() {
    assert_eq!(three(Opcode::Shl, 1, 4), Ok(16));
    assert_eq!(three(Opcode::Shl, 1, 33), Ok(2));
    assert_eq!(three(Opcode::Shl, 1, -1), Ok(i32::MIN));
    assert_eq!(three(Opcode::Shr, -8, 1), Ok(-4));
    assert_eq!(three(Opcode::Shr, 256, 36), Ok(16));
    assert_eq!(binary(BinaryOp::Shl, 3, 2), 12);
}

#[test]
fn negation_and_absolute_wrap_at_minimum() {
    assert_eq!(two(Opcode::Neg, 5), -5);
    assert_eq!(two(Opcode::Neg, i32::MIN), i32::MIN);
    assert_eq!(two(Opcode::Abs, -5), 5);
    assert_eq!(two(Opcode::Abs, i32::MIN), i32::MIN);
}

#[test]
fn increment_and_decrement_wrap() {
    assert_eq!(in_place(Opcode::Inc, 41), 42);
    assert_eq!(in_place(Opcode::Inc, i32::MAX), i32::MIN);
    assert_eq!(in_place(Opcode::Dec, i32::MIN), i32::MAX);
}

#[test]
fn mov_copies_source_into_destination() {
    let mut pu = ProcessingUnit::initialize(2, 1);
    pu.load_immediate(1, 8).unwrap();
    pu.mov(0, 1).unwrap();
    assert_eq!(pu.read_register(0), Ok(8));
    assert_eq!(pu.read_register(1), Ok(8));
}

#[test]
fn primitive_operations_report_faults() {
    let mut pu = ProcessingUnit::initialize(2, 2);
    assert_eq!(pu.add(0, 1, 2), Err(Fault::RegisterOutOfBounds { index: 2 }));
    assert_eq!(pu.divide(0, 1, 0), Err(Fault::DivisionByZero { register: 1, value: 0 }));
    assert_eq!(pu.store(0, 2), Err(Fault::MemoryOutOfBounds { address: 2 }));
    assert_eq!(pu.unary(UnaryOp::Neg, 3, 0), Err(Fault::RegisterOutOfBounds { index: 3 }));
    assert_eq!(pu.check_register_bounds(1), Ok(()));
    assert_eq!(pu.push(0), Ok(()));
    assert_eq!(pu.push(0), Err(Fault::StackOverflow { register: 0 }));
    assert_eq!(pu.pop(1), Ok(()));
    assert_eq!(pu.pop(1), Err(Fault::StackUnderflow { register: 1 }));
}

#[test]
fn fresh_unit_is_zeroed() {
    let pu = ProcessingUnit::initialize(3, 5);
    let state = pu.snapshot();
    assert_eq!(state.registers, vec![0, 0, 0]);
    assert!(state.stack.is_empty());
    assert_eq!(pu.stack_pointer(), 4);
}
