//! Properties of the instruction set and of whole runs.
use vstd::prelude::*;
use crate::engine::{run_spec, step_spec, Flow, Instruction, Opcode};
use crate::processor::{
    load_immediate_spec, load_spec, machine_wf, pop_spec, push_spec, read_spec, store_spec, Fault,
    Machine,
};

verus! {

/// Every register operand that opcode `i` reads or writes is below `n`.
pub open spec fn operands_in_range(i: Instruction, n: nat) -> bool {
    match i.opcode {
        Opcode::Nop | Opcode::Jmp | Opcode::B | Opcode::Halt => true,
        Opcode::Add | Opcode::Sub | Opcode::Mul | Opcode::Div | Opcode::Mod | Opcode::And
        | Opcode::Or | Opcode::Xor | Opcode::Shl | Opcode::Shr | Opcode::Cmp | Opcode::Test => {
            i.reg1 < n && i.reg2 < n && i.reg3 < n
        },
        Opcode::Neg | Opcode::Abs | Opcode::Not | Opcode::Mov | Opcode::Je | Opcode::Jne => {
            i.reg1 < n && i.reg2 < n
        },
        Opcode::Inc | Opcode::Dec | Opcode::Store | Opcode::Load | Opcode::LoadImmediate
        | Opcode::Push | Opcode::Pop | Opcode::Jz | Opcode::Jnz | Opcode::Bz | Opcode::Bnz => {
            i.reg1 < n
        },
    }
}

/// Writing an immediate into a register and reading it back gives the
/// immediate.
pub proof fn lemma_load_immediate_then_read(m: Machine, reg: usize, v: i32)
    requires
        machine_wf(m),
        reg < m.registers.len(),
    ensures
        match load_immediate_spec(m, reg, v) {
            Ok(m2) => read_spec(m2, reg) == Ok::<i32, Fault>(v),
            Err(_) => false,
        },
{
}

/// A push followed by a pop moves the pushed value into the popping
/// register and puts the stack pointer back where it was.
pub proof fn lemma_push_then_pop(m: Machine, r: usize, r2: usize)
    requires
        machine_wf(m),
        r < m.registers.len(),
        r2 < m.registers.len(),
        m.stack_pointer > 0,
    ensures
        match push_spec(m, r) {
            Ok(m1) => match pop_spec(m1, r2) {
                Ok(m2) => {
                    &&& m2.registers == m.registers.update(r2 as int, m.registers[r as int])
                    &&& m2.stack_pointer == m.stack_pointer
                },
                Err(_) => false,
            },
            Err(_) => false,
        },
{
}

/// A store followed by a load of the same address copies the stored
/// register into the loading one, through `memory[addr]`.
pub proof fn lemma_store_then_load(m: Machine, r: usize, addr: usize, r2: usize)
    requires
        machine_wf(m),
        r < m.registers.len(),
        r2 < m.registers.len(),
        addr < m.memory.len(),
    ensures
        match store_spec(m, r, addr) {
            Ok(m1) => {
                &&& m1.memory[addr as int] == m.registers[r as int]
                &&& match load_spec(m1, addr, r2) {
                    Ok(m2) => m2.registers[r2 as int] == m.registers[r as int],
                    Err(_) => false,
                }
            },
            Err(_) => false,
        },
{
}

/// A register operand out of range faults with `RegisterOutOfBounds` on one
/// of the instruction's own operands; with the registers in range, a memory
/// operand out of range faults with `MemoryOutOfBounds`.
pub proof fn lemma_out_of_range_operand_faults(m: Machine, i: Instruction)
    requires
        machine_wf(m),
    ensures
        !operands_in_range(i, m.registers.len()) ==> match step_spec(m, i) {
            Err(Fault::RegisterOutOfBounds { index }) => {
                &&& index >= m.registers.len()
                &&& index == i.reg1 || index == i.reg2 || index == i.reg3
            },
            _ => false,
        },
        operands_in_range(i, m.registers.len()) && (i.opcode == Opcode::Store || i.opcode
            == Opcode::Load) && i.addr >= m.memory.len() ==> step_spec(m, i) == Err::<
            (Machine, Flow),
            Fault,
        >(Fault::MemoryOutOfBounds { address: i.addr }),
{
    reveal(step_spec);
}

/// Dividing by a register that holds zero stops the run with
/// `DivisionByZero` on that register, and leaves the machine, the
/// destination register included, as it was.
pub proof fn lemma_zero_divisor_stops_run(
    program: Seq<Instruction>,
    max: nat,
    m: Machine,
    ip: int,
    count: nat,
    jumps: nat,
)
    requires
        machine_wf(m),
        0 <= ip < program.len(),
        program[ip].opcode == Opcode::Div || program[ip].opcode == Opcode::Mod,
        operands_in_range(program[ip], m.registers.len()),
        m.registers[program[ip].reg2 as int] == 0,
        count < max,
        jumps < program.len(),
    ensures
        run_spec(program, max, m, ip, count, jumps) == (
            m,
            Some(Fault::DivisionByZero { register: program[ip].reg2, value: 0 }),
        ),
{
    reveal(step_spec);
}

/// An unconditional jump to `k` makes `program[k]` the next instruction
/// fetched, with the machine unchanged.
pub proof fn lemma_jump_fetches_target(
    program: Seq<Instruction>,
    max: nat,
    m: Machine,
    ip: int,
    count: nat,
    jumps: nat,
)
    requires
        0 <= ip < program.len(),
        program[ip].opcode == Opcode::Jmp || program[ip].opcode == Opcode::B,
        count < max,
        jumps < program.len(),
    ensures
        run_spec(program, max, m, ip, count, jumps) == run_spec(
            program,
            max,
            m,
            program[ip].addr as int,
            count,
            jumps + 1,
        ),
{
    reveal(step_spec);
}

/// The instruction at `idx` neither halts nor faults on a machine with
/// `n_regs` registers and `n_mem` words, and control stays in the program
/// after it whichever way it goes.
pub open spec fn keeps_going_at(program: Seq<Instruction>, idx: int, n_regs: nat, n_mem: nat) -> bool {
    let i = program[idx];
    let len = program.len();
    let next_inside = idx + 1 < len;
    match i.opcode {
        Opcode::Halt | Opcode::Div | Opcode::Mod | Opcode::Push | Opcode::Pop => false,
        Opcode::Jmp | Opcode::B => i.addr < len,
        Opcode::Jz | Opcode::Jnz | Opcode::Bz | Opcode::Bnz => {
            next_inside && i.addr < len && i.reg1 < n_regs
        },
        Opcode::Je | Opcode::Jne => {
            next_inside && i.addr + 1 < len && operands_in_range(i, n_regs)
        },
        Opcode::Store | Opcode::Load => next_inside && i.reg1 < n_regs && i.addr < n_mem,
        _ => next_inside && operands_in_range(i, n_regs),
    }
}

/// Every instruction of the program keeps going.
pub open spec fn never_stops(program: Seq<Instruction>, n_regs: nat, n_mem: nat) -> bool {
    forall|idx: int| 0 <= idx < program.len() ==> #[trigger] keeps_going_at(program, idx, n_regs, n_mem)
}

proof fn lemma_step_keeps_going(program: Seq<Instruction>, m: Machine, ip: int)
    requires
        machine_wf(m),
        0 <= ip < program.len(),
        keeps_going_at(program, ip, m.registers.len(), m.memory.len()),
    ensures
        match step_spec(m, program[ip]) {
            Ok((m2, flow)) => {
                &&& machine_wf(m2)
                &&& m2.registers.len() == m.registers.len()
                &&& m2.memory.len() == m.memory.len()
                &&& match flow {
                    Flow::Advance => ip + 1 < program.len(),
                    Flow::AdvanceFrom(a) => a + 1 < program.len(),
                    Flow::Jump(a) => a < program.len(),
                    Flow::Halt => false,
                }
            },
            Err(_) => false,
        },
{
    reveal(step_spec);
}

/// A run that can neither halt, fault nor leave the program ends only when
/// its budget is spent: it stops with `InstructionBudgetExceeded`.
pub proof fn lemma_endless_run_exceeds_budget(
    program: Seq<Instruction>,
    max: nat,
    m: Machine,
    ip: int,
    count: nat,
    jumps: nat,
)
    requires
        machine_wf(m),
        0 <= ip < program.len(),
        never_stops(program, m.registers.len(), m.memory.len()),
    ensures
        run_spec(program, max, m, ip, count, jumps).1 == Some(Fault::InstructionBudgetExceeded),
    decreases max - count, program.len() - jumps,
{
    if count >= max || jumps >= program.len() {
    } else {
        assert(keeps_going_at(program, ip, m.registers.len(), m.memory.len()));
        lemma_step_keeps_going(program, m, ip);
        match step_spec(m, program[ip]) {
            Ok((m2, Flow::Advance)) => {
                lemma_endless_run_exceeds_budget(program, max, m2, ip + 1, count + 1, 0);
            },
            Ok((m2, Flow::AdvanceFrom(a))) => {
                lemma_endless_run_exceeds_budget(program, max, m2, a + 1, count + 1, 0);
            },
            Ok((m2, Flow::Jump(a))) => {
                lemma_endless_run_exceeds_budget(program, max, m2, a as int, count, jumps + 1);
            },
            _ => {},
        }
    }
}

} // verus!
