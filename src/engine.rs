//! Instructions and the fetch-decode-execute loop.
use vstd::prelude::*;
use crate::processor::{
    binary_spec, division_spec, load_immediate_spec, load_spec, machine_wf, mov_spec, pop_spec,
    push_spec, read_spec, stack_of, store_spec, unary_spec, BinaryOp, Fault, Machine,
    ProcessingUnit, ProcessingUnitState, UnaryOp,
};

verus! {

/// The operation an instruction performs.
#[derive(Debug, Clone, Copy, PartialEq, Eq, Structural)]
pub enum Opcode {
    Nop,
    Add,
    Sub,
    Mul,
    Div,
    Store,
    Load,
    LoadImmediate,
    Push,
    Pop,
    Jmp,
    Jz,
    Jnz,
    Mov,
    Je,
    Jne,
    And,
    Or,
    Xor,
    Not,
    Shl,
    Shr,
    Cmp,
    Test,
    B,
    Bz,
    Bnz,
    Neg,
    Abs,
    Mod,
    Inc,
    Dec,
    Halt,
}

/// One instruction: an opcode and the operands it may read. `addr` is a
/// memory address for `Store`/`Load` and a program index for jumps.
#[derive(Debug, Clone, Copy, PartialEq, Eq, Structural)]
pub struct Instruction {
    pub opcode: Opcode,
    pub reg1: usize,
    pub reg2: usize,
    pub reg3: usize,
    pub addr: usize,
    pub immediate: i32,
}

/// Where control goes after one instruction.
#[derive(Debug, Clone, Copy, PartialEq, Eq, Structural)]
pub enum Flow {
    /// Counted; the next instruction follows this one.
    Advance,
    /// Counted; control lands one past the given index (taken `Je`/`Jne`).
    AdvanceFrom(usize),
    /// Not counted; the given index is fetched next.
    Jump(usize),
    /// The run stops here, uncounted.
    Halt,
}

/// Lifts a state change to a counted step.
pub open spec fn advancing(r: Result<Machine, Fault>) -> Result<(Machine, Flow), Fault> {
    match r {
        Ok(m) => Ok((m, Flow::Advance)),
        Err(f) => Err(f),
    }
}

/// A branch on one register: taken when `(value == 0) == on_zero`.
pub open spec fn branch_spec(m: Machine, reg: usize, on_zero: bool, addr: usize) -> Result<
    (Machine, Flow),
    Fault,
> {
    match read_spec(m, reg) {
        Err(f) => Err(f),
        Ok(v) => if (v == 0) == on_zero {
            Ok((m, Flow::Jump(addr)))
        } else {
            Ok((m, Flow::Advance))
        },
    }
}

/// A comparison of two registers: when `(equal) == on_equal` control lands
/// one past `addr`, else on the next instruction; counted either way.
pub open spec fn compare_spec(m: Machine, r1: usize, r2: usize, on_equal: bool, addr: usize) -> Result<
    (Machine, Flow),
    Fault,
> {
    match read_spec(m, r1) {
        Err(f) => Err(f),
        Ok(a) => match read_spec(m, r2) {
            Err(f) => Err(f),
            Ok(b) => if (a == b) == on_equal {
                Ok((m, Flow::AdvanceFrom(addr)))
            } else {
                Ok((m, Flow::Advance))
            },
        },
    }
}

/// What one instruction does to the machine, and where control goes.
#[verifier::opaque]
pub open spec fn step_spec(m: Machine, i: Instruction) -> Result<(Machine, Flow), Fault> {
    match i.opcode {
        Opcode::Nop => Ok((m, Flow::Advance)),
        Opcode::Add => advancing(binary_spec(m, BinaryOp::Add, i.reg1, i.reg2, i.reg3)),
        Opcode::Sub | Opcode::Cmp => advancing(binary_spec(m, BinaryOp::Sub, i.reg1, i.reg2, i.reg3)),
        Opcode::Mul => advancing(binary_spec(m, BinaryOp::Mul, i.reg1, i.reg2, i.reg3)),
        Opcode::And | Opcode::Test => advancing(binary_spec(m, BinaryOp::And, i.reg1, i.reg2, i.reg3)),
        Opcode::Or => advancing(binary_spec(m, BinaryOp::Or, i.reg1, i.reg2, i.reg3)),
        Opcode::Xor => advancing(binary_spec(m, BinaryOp::Xor, i.reg1, i.reg2, i.reg3)),
        Opcode::Shl => advancing(binary_spec(m, BinaryOp::Shl, i.reg1, i.reg2, i.reg3)),
        Opcode::Shr => advancing(binary_spec(m, BinaryOp::Shr, i.reg1, i.reg2, i.reg3)),
        Opcode::Div => advancing(division_spec(m, false, i.reg1, i.reg2, i.reg3)),
        Opcode::Mod => advancing(division_spec(m, true, i.reg1, i.reg2, i.reg3)),
        Opcode::Neg => advancing(unary_spec(m, UnaryOp::Neg, i.reg1, i.reg2)),
        Opcode::Abs => advancing(unary_spec(m, UnaryOp::Abs, i.reg1, i.reg2)),
        Opcode::Not => advancing(unary_spec(m, UnaryOp::Not, i.reg1, i.reg2)),
        Opcode::Inc => advancing(unary_spec(m, UnaryOp::Inc, i.reg1, i.reg1)),
        Opcode::Dec => advancing(unary_spec(m, UnaryOp::Dec, i.reg1, i.reg1)),
        Opcode::Store => advancing(store_spec(m, i.reg1, i.addr)),
        Opcode::Load => advancing(load_spec(m, i.addr, i.reg1)),
        Opcode::LoadImmediate => advancing(load_immediate_spec(m, i.reg1, i.immediate)),
        Opcode::Push => advancing(push_spec(m, i.reg1)),
        Opcode::Pop => advancing(pop_spec(m, i.reg1)),
        Opcode::Mov => advancing(mov_spec(m, i.reg1, i.reg2)),
        Opcode::Jmp | Opcode::B => Ok((m, Flow::Jump(i.addr))),
        Opcode::Jz | Opcode::Bz => branch_spec(m, i.reg1, true, i.addr),
        Opcode::Jnz | Opcode::Bnz => branch_spec(m, i.reg1, false, i.addr),
        Opcode::Je => compare_spec(m, i.reg1, i.reg2, true, i.addr),
        Opcode::Jne => compare_spec(m, i.reg1, i.reg2, false, i.addr),
        Opcode::Halt => Ok((m, Flow::Halt)),
    }
}

/// The run from index `ip` with `count` instructions counted so far and
/// `jumps` uncounted jumps taken in a row: the final machine, and the fault
/// that stopped the run, if any.
///
/// Jumps leave the machine as it is and are not counted; once `jumps`
/// reaches the program's length some index has been fetched twice with the
/// same machine, so the run could never end, and it stops as over budget.
pub open spec fn run_spec(
    program: Seq<Instruction>,
    max: nat,
    m: Machine,
    ip: int,
    count: nat,
    jumps: nat,
) -> (Machine, Option<Fault>)
    decreases max - count, program.len() - jumps,
{
    if !(0 <= ip < program.len()) {
        (m, None)
    } else if count >= max || jumps >= program.len() {
        (m, Some(Fault::InstructionBudgetExceeded))
    } else {
        match step_spec(m, program[ip]) {
            Err(f) => (m, Some(f)),
            Ok((m2, Flow::Halt)) => (m2, None),
            Ok((m2, Flow::Advance)) => run_spec(program, max, m2, ip + 1, count + 1, 0),
            Ok((m2, Flow::AdvanceFrom(a))) => run_spec(program, max, m2, a + 1, count + 1, 0),
            Ok((m2, Flow::Jump(a))) => run_spec(program, max, m2, a as int, count, jumps + 1),
        }
    }
}

/// A whole run from the first instruction.
pub open spec fn run_from_start(program: Seq<Instruction>, max: nat, m: Machine) -> (
    Machine,
    Option<Fault>,
) {
    run_spec(program, max, m, 0, 0, 0)
}

/// Executes one instruction and says where control goes next.
pub fn execute_instruction(pu: &mut ProcessingUnit, instr: &Instruction) -> (r: Result<Flow, Fault>)
    requires
        machine_wf(old(pu)@),
    ensures
        machine_wf(final(pu)@),
        match step_spec(old(pu)@, *instr) {
            Ok((m, f)) => r == Ok::<Flow, Fault>(f) && final(pu)@ == m,
            Err(e) => r == Err::<Flow, Fault>(e) && final(pu)@ == old(pu)@,
        },
{
    reveal(step_spec);
    match instr.opcode {
        Opcode::Nop => Ok(Flow::Advance),
        Opcode::Add => {
            pu.add(instr.reg1, instr.reg2, instr.reg3)?;
            Ok(Flow::Advance)
        },
        Opcode::Sub | Opcode::Cmp => {
            pu.subtract(instr.reg1, instr.reg2, instr.reg3)?;
            Ok(Flow::Advance)
        },
        Opcode::Mul => {
            pu.multiply(instr.reg1, instr.reg2, instr.reg3)?;
            Ok(Flow::Advance)
        },
        Opcode::And | Opcode::Test => {
            pu.binary(BinaryOp::And, instr.reg1, instr.reg2, instr.reg3)?;
            Ok(Flow::Advance)
        },
        Opcode::Or => {
            pu.binary(BinaryOp::Or, instr.reg1, instr.reg2, instr.reg3)?;
            Ok(Flow::Advance)
        },
        Opcode::Xor => {
            pu.binary(BinaryOp::Xor, instr.reg1, instr.reg2, instr.reg3)?;
            Ok(Flow::Advance)
        },
        Opcode::Shl => {
            pu.binary(BinaryOp::Shl, instr.reg1, instr.reg2, instr.reg3)?;
            Ok(Flow::Advance)
        },
        Opcode::Shr => {
            pu.binary(BinaryOp::Shr, instr.reg1, instr.reg2, instr.reg3)?;
            Ok(Flow::Advance)
        },
        Opcode::Div => {
            pu.divide(instr.reg1, instr.reg2, instr.reg3)?;
            Ok(Flow::Advance)
        },
        Opcode::Mod => {
            pu.mod_op(instr.reg1, instr.reg2, instr.reg3)?;
            Ok(Flow::Advance)
        },
        Opcode::Neg => {
            pu.neg(instr.reg1, instr.reg2)?;
            Ok(Flow::Advance)
        },
        Opcode::Abs => {
            pu.absolute(instr.reg1, instr.reg2)?;
            Ok(Flow::Advance)
        },
        Opcode::Not => {
            pu.unary(UnaryOp::Not, instr.reg1, instr.reg2)?;
            Ok(Flow::Advance)
        },
        Opcode::Inc => {
            pu.unary(UnaryOp::Inc, instr.reg1, instr.reg1)?;
            Ok(Flow::Advance)
        },
        Opcode::Dec => {
            pu.unary(UnaryOp::Dec, instr.reg1, instr.reg1)?;
            Ok(Flow::Advance)
        },
        Opcode::Store => {
            pu.store(instr.reg1, instr.addr)?;
            Ok(Flow::Advance)
        },
        Opcode::Load => {
            pu.load(instr.addr, instr.reg1)?;
            Ok(Flow::Advance)
        },
        Opcode::LoadImmediate => {
            pu.load_immediate(instr.reg1, instr.immediate)?;
            Ok(Flow::Advance)
        },
        Opcode::Push => {
            pu.push(instr.reg1)?;
            Ok(Flow::Advance)
        },
        Opcode::Pop => {
            pu.pop(instr.reg1)?;
            Ok(Flow::Advance)
        },
        Opcode::Mov => {
            pu.mov(instr.reg1, instr.reg2)?;
            Ok(Flow::Advance)
        },
        Opcode::Jmp | Opcode::B => Ok(Flow::Jump(instr.addr)),
        Opcode::Jz | Opcode::Bz => {
            let v = pu.read_register(instr.reg1)?;
            if v == 0 {
                Ok(Flow::Jump(instr.addr))
            } else {
                Ok(Flow::Advance)
            }
        },
        Opcode::Jnz | Opcode::Bnz => {
            let v = pu.read_register(instr.reg1)?;
            if v != 0 {
                Ok(Flow::Jump(instr.addr))
            } else {
                Ok(Flow::Advance)
            }
        },
        Opcode::Je => {
            let a = pu.read_register(instr.reg1)?;
            let b = pu.read_register(instr.reg2)?;
            if a == b {
                Ok(Flow::AdvanceFrom(instr.addr))
            } else {
                Ok(Flow::Advance)
            }
        },
        Opcode::Jne => {
            let a = pu.read_register(instr.reg1)?;
            let b = pu.read_register(instr.reg2)?;
            if a != b {
                Ok(Flow::AdvanceFrom(instr.addr))
            } else {
                Ok(Flow::Advance)
            }
        },
        Opcode::Halt => Ok(Flow::Halt),
    }
}

/// Runs `program` on `pu` from its first instruction until it halts, runs
/// past its end, faults, or exceeds `max_instruction_count` counted steps.
pub fn execute_program(pu: &mut ProcessingUnit, program: &[Instruction], max_instruction_count: usize) -> (r: Result<(), Fault>)
    requires
        machine_wf(old(pu)@),
    ensures
        machine_wf(final(pu)@),
        run_from_start(program@, max_instruction_count as nat, old(pu)@) == (
            final(pu)@,
            match r {
                Ok(_) => None::<Fault>,
                Err(f) => Some(f),
            },
        ),
{
    let ghost start = pu@;
    let n: usize = program.len();
    let mut count: usize = 0;
    let mut jumps: usize = 0;
    let mut ip: usize = 0;
    while ip < n
        invariant
            n == program@.len(),
            start == old(pu)@,
            machine_wf(pu@),
            count <= max_instruction_count,
            jumps <= n,
            run_spec(program@, max_instruction_count as nat, pu@, ip as int, count as nat, jumps as nat)
                == run_from_start(program@, max_instruction_count as nat, start),
        decreases max_instruction_count - count, n - jumps,
    {
        if count >= max_instruction_count || jumps >= n {
            return Err(Fault::InstructionBudgetExceeded);
        }
        let instr = &program[ip];
        let flow = match execute_instruction(pu, instr) {
            Ok(flow) => flow,
            Err(f) => {
                return Err(f);
            },
        };
        match flow {
            Flow::Advance => {
                count = count + 1;
                jumps = 0;
                ip = ip + 1;
            },
            Flow::AdvanceFrom(a) => {
                count = count + 1;
                jumps = 0;
                ip = if a < n {
                    a + 1
                } else {
                    n
                };
                assert(run_spec(program@, max_instruction_count as nat, pu@, a + 1, count as nat, 0)
                    == run_spec(program@, max_instruction_count as nat, pu@, ip as int, count as nat, 0));
            },
            Flow::Jump(a) => {
                jumps = jumps + 1;
                ip = a;
            },
            Flow::Halt => {
                return Ok(());
            },
        }
    }
    Ok(())
}

/// Runs `program` and, unless a fault stopped it, returns the final
/// registers and the live stack.
pub fn run(pu: &mut ProcessingUnit, program: &[Instruction], max_instruction_count: usize) -> (r: Result<ProcessingUnitState, Fault>)
    requires
        machine_wf(old(pu)@),
    ensures
        machine_wf(final(pu)@),
        final(pu)@ == run_from_start(program@, max_instruction_count as nat, old(pu)@).0,
        match r {
            Ok(s) => run_from_start(program@, max_instruction_count as nat, old(pu)@).1 is None
                && s.registers@ == final(pu)@.registers && s.stack@ == stack_of(final(pu)@),
            Err(f) => run_from_start(program@, max_instruction_count as nat, old(pu)@).1 == Some(f),
        },
{
    execute_program(pu, program, max_instruction_count)?;
    Ok(pu.snapshot())
}

} // verus!
