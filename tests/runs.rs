use mdpu::{run, Fault, Instruction, Opcode, ProcessingUnit};

fn ins(opcode: Opcode, reg1: usize, reg2: usize, reg3: usize, addr: usize, immediate: i32) -> Instruction {
    Instruction { opcode, reg1, reg2, reg3, addr, immediate }
}

fn li(reg: usize, v: i32) -> Instruction {
    ins(Opcode::LoadImmediate, reg, 0, 0, 0, v)
}

fn halt() -> Instruction {
    ins(Opcode::Halt, 0, 0, 0, 0, 0)
}

#[test]
fn sample_program_adds_two_immediates() {
    let mut pu = ProcessingUnit::initialize(8, 128);
    let program = vec![li(0, 10), li(1, 20), ins(Opcode::Add, 0, 1, 2, 0, 0), halt()];
    let state = run(&mut pu, &program, 1000).unwrap();
    assert_eq!(state.registers, vec![10, 20, 30, 0, 0, 0, 0, 0]);
    assert!(state.stack.is_empty());
}

#[test]
fn fourth_push_into_four_words_overflows() {
    let mut pu = ProcessingUnit::initialize(2, 4);
    assert_eq!(pu.stack_pointer(), 3);
    let program = vec![
        li(0, 5),
        ins(Opcode::Push, 0, 0, 0, 0, 0),
        ins(Opcode::Push, 0, 0, 0, 0, 0),
        ins(Opcode::Push, 0, 0, 0, 0, 0),
        ins(Opcode::Push, 0, 0, 0, 0, 0),
    ];
    assert_eq!(run(&mut pu, &program, 100).err(), Some(Fault::StackOverflow { register: 0 }));
    assert_eq!(pu.stack_pointer(), 0);
    let mut pu3 = ProcessingUnit::initialize(2, 4);
    let state = run(&mut pu3, &program[..4], 100).unwrap();
    assert_eq!(state.stack, vec![5, 5, 5]);
}

#[test]
fn divide_by_zero_register_aborts_without_writing() {
    let mut pu = ProcessingUnit::initialize(4, 8);
    let program = vec![li(0, 9), li(2, 77), ins(Opcode::Div, 0, 1, 2, 0, 0), li(3, 1), halt()];
    assert_eq!(
        run(&mut pu, &program, 100).err(),
        Some(Fault::DivisionByZero { register: 1, value: 0 })
    );
    assert_eq!(pu.read_register(2), Ok(77));
    assert_eq!(pu.read_register(3), Ok(0));
}

#[test]
fn mod_by_zero_register_faults() {
    let mut pu = ProcessingUnit::initialize(4, 8);
    let program = vec![li(0, 9), li(2, 77), ins(Opcode::Mod, 0, 3, 2, 0, 0)];
    assert_eq!(
        run(&mut pu, &program, 100).err(),
        Some(Fault::DivisionByZero { register: 3, value: 0 })
    );
    assert_eq!(pu.read_register(2), Ok(77));
}

#[test]
fn load_immediate_then_read_register() {
    let mut pu = ProcessingUnit::initialize(3, 4);
    let program = vec![li(2, -123456)];
    let state = run(&mut pu, &program, 10).unwrap();
    assert_eq!(state.registers[2], -123456);
    assert_eq!(pu.read_register(2), Ok(-123456));
}

#[test]
fn push_then_pop_restores_value_and_pointer() {
    let mut pu = ProcessingUnit::initialize(4, 16);
    let program = vec![
        li(0, 42),
        ins(Opcode::Push, 0, 0, 0, 0, 0),
        ins(Opcode::Pop, 3, 0, 0, 0, 0),
        halt(),
    ];
    let state = run(&mut pu, &program, 10).unwrap();
    assert_eq!(state.registers, vec![42, 0, 0, 42]);
    assert!(state.stack.is_empty());
    assert_eq!(pu.stack_pointer(), 15);
}

#[test]
fn stack_lists_live_values_lowest_address_first() {
    let mut pu = ProcessingUnit::initialize(2, 8);
    let program = vec![
        li(0, 1),
        ins(Opcode::Push, 0, 0, 0, 0, 0),
        li(0, 2),
        ins(Opcode::Push, 0, 0, 0, 0, 0),
    ];
    let state = run(&mut pu, &program, 10).unwrap();
    assert_eq!(state.stack, vec![2, 1]);
    assert_eq!(pu.stack_pointer(), 5);
}

#[test]
fn pop_on_empty_stack_underflows() {
    let mut pu = ProcessingUnit::initialize(2, 8);
    let program = vec![ins(Opcode::Pop, 1, 0, 0, 0, 0)];
    assert_eq!(run(&mut pu, &program, 10).err(), Some(Fault::StackUnderflow { register: 1 }));
}

#[test]
fn store_then_load_round_trips() {
    let mut pu = ProcessingUnit::initialize(4, 8);
    let program = vec![
        li(1, -9),
        ins(Opcode::Store, 1, 0, 0, 6, 0),
        ins(Opcode::Load, 2, 0, 0, 6, 0),
        halt(),
    ];
    let state = run(&mut pu, &program, 10).unwrap();
    assert_eq!(state.registers, vec![0, -9, -9, 0]);
}

#[test]
fn register_out_of_range_faults() {
    let mut pu = ProcessingUnit::initialize(4, 8);
    let program = vec![ins(Opcode::Add, 0, 4, 9, 0, 0)];
    assert_eq!(
        run(&mut pu, &program, 10).err(),
        Some(Fault::RegisterOutOfBounds { index: 4 })
    );
    let mut pu = ProcessingUnit::initialize(4, 8);
    let program = vec![ins(Opcode::Jz, 7, 0, 0, 0, 0)];
    assert_eq!(
        run(&mut pu, &program, 10).err(),
        Some(Fault::RegisterOutOfBounds { index: 7 })
    );
    let mut pu = ProcessingUnit::initialize(4, 8);
    let program = vec![ins(Opcode::Mov, 1, 4, 0, 0, 0)];
    assert_eq!(
        run(&mut pu, &program, 10).err(),
        Some(Fault::RegisterOutOfBounds { index: 4 })
    );
}

#[test]
fn memory_out_of_range_faults() {
    let mut pu = ProcessingUnit::initialize(4, 8);
    let program = vec![ins(Opcode::Store, 0, 0, 0, 8, 0)];
    assert_eq!(
        run(&mut pu, &program, 10).err(),
        Some(Fault::MemoryOutOfBounds { address: 8 })
    );
    let mut pu = ProcessingUnit::initialize(4, 8);
    let program = vec![ins(Opcode::Load, 0, 0, 0, 100, 0)];
    assert_eq!(
        run(&mut pu, &program, 10).err(),
        Some(Fault::MemoryOutOfBounds { address: 100 })
    );
}

#[test]
fn unconditional_jump_fetches_target_next() {
    for op in [Opcode::Jmp, Opcode::B] {
        let mut pu = ProcessingUnit::initialize(2, 4);
        let program = vec![ins(op, 0, 0, 0, 2, 0), li(0, 1), li(1, 2), halt()];
        let state = run(&mut pu, &program, 10).unwrap();
        assert_eq!(state.registers, vec![0, 2]);
    }
}

#[test]
fn conditional_branches_follow_register() {
    for op in [Opcode::Jz, Opcode::Bz] {
        let mut pu = ProcessingUnit::initialize(2, 4);
        let program = vec![ins(op, 0, 0, 0, 2, 0), li(1, 5), halt()];
        let state = run(&mut pu, &program, 10).unwrap();
        assert_eq!(state.registers, vec![0, 0]);
    }
    for op in [Opcode::Jnz, Opcode::Bnz] {
        let mut pu = ProcessingUnit::initialize(2, 4);
        let program = vec![ins(op, 0, 0, 0, 2, 0), li(1, 5), halt()];
        let state = run(&mut pu, &program, 10).unwrap();
        assert_eq!(state.registers, vec![0, 5]);
    }
}

#[test]
fn taken_je_lands_one_past_its_target() {
    let mut pu = ProcessingUnit::initialize(4, 4);
    let program = vec![
        li(0, 5),
        li(1, 5),
        ins(Opcode::Je, 0, 1, 0, 3, 0),
        li(2, 7),
        li(3, 9),
        halt(),
    ];
    let state = run(&mut pu, &program, 100).unwrap();
    assert_eq!(state.registers, vec![5, 5, 0, 9]);
}

#[test]
fn taken_jne_lands_one_past_its_target() {
    let mut pu = ProcessingUnit::initialize(4, 4);
    let program = vec![
        li(0, 5),
        ins(Opcode::Jne, 0, 1, 0, 2, 0),
        li(2, 7),
        li(3, 9),
        halt(),
    ];
    let state = run(&mut pu, &program, 100).unwrap();
    assert_eq!(state.registers, vec![5, 0, 0, 9]);
}

#[test]
fn endless_loop_exceeds_budget() {
    let mut pu = ProcessingUnit::initialize(2, 4);
    let program = vec![ins(Opcode::Inc, 0, 0, 0, 0, 0), ins(Opcode::Jmp, 0, 0, 0, 0, 0)];
    assert_eq!(run(&mut pu, &program, 50).err(), Some(Fault::InstructionBudgetExceeded));
    assert_eq!(pu.read_register(0), Ok(50));
}

#[test]
fn jump_to_itself_exceeds_budget() {
    let mut pu = ProcessingUnit::initialize(2, 4);
    let program = vec![ins(Opcode::Jmp, 0, 0, 0, 0, 0)];
    assert_eq!(run(&mut pu, &program, 1000).err(), Some(Fault::InstructionBudgetExceeded));
}

#[test]
fn budget_counts_executed_instructions() {
    let nop = ins(Opcode::Nop, 0, 0, 0, 0, 0);
    let program = vec![nop, nop, nop];
    let mut pu = ProcessingUnit::initialize(1, 1);
    assert!(run(&mut pu, &program, 3).is_ok());
    let mut pu = ProcessingUnit::initialize(1, 1);
    assert_eq!(run(&mut pu, &program, 2).err(), Some(Fault::InstructionBudgetExceeded));
}

#[test]
fn running_past_the_end_finishes() {
    let mut pu = ProcessingUnit::initialize(1, 1);
    let program = vec![li(0, 3), ins(Opcode::Jmp, 0, 0, 0, 99, 0), li(0, 4)];
    let state = run(&mut pu, &program, 10).unwrap();
    assert_eq!(state.registers, vec![3]);
}

#[test]
fn halt_stops_before_later_instructions() {
    let mut pu = ProcessingUnit::initialize(1, 1);
    let program = vec![halt(), li(0, 3)];
    let state = run(&mut pu, &program, 10).unwrap();
    assert_eq!(state.registers, vec![0]);
}
