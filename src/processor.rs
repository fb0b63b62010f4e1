//! Processor state: registers, a flat memory and a downward-growing stack
//! inside that memory, with bounds-checked primitive operations.
use vstd::prelude::*;
use crate::arith::{
    abs_int, abs_wrapping, add_wrapping, div_wrapping, mul_wrapping, neg_wrapping, rem_wrapping,
    sub_wrapping, trunc_div, trunc_rem, wrap_i32,
};

verus! {

/// A fatal condition that stops a run, with the offending operand.
#[derive(Debug, Clone, Copy, PartialEq, Eq, Structural)]
pub enum Fault {
    RegisterOutOfBounds { index: usize },
    MemoryOutOfBounds { address: usize },
    DivisionByZero { register: usize, value: i32 },
    StackOverflow { register: usize },
    StackUnderflow { register: usize },
    InstructionBudgetExceeded,
}

/// Operations that combine two register values into a third.
#[derive(Debug, Clone, Copy, PartialEq, Eq, Structural)]
pub enum BinaryOp {
    Add,
    Sub,
    Mul,
    And,
    Or,
    Xor,
    Shl,
    Shr,
}

/// Operations that map one register value to another.
#[derive(Debug, Clone, Copy, PartialEq, Eq, Structural)]
pub enum UnaryOp {
    Neg,
    Abs,
    Not,
    Inc,
    Dec,
}

/// The mathematical content of a processor: what every contract speaks of.
pub struct Machine {
    pub registers: Seq<i32>,
    pub memory: Seq<i32>,
    pub stack_pointer: int,
}

/// Registers, memory and stack pointer of one run.
pub struct ProcessingUnit {
    registers: Vec<i32>,
    memory: Vec<i32>,
    stack_pointer: usize,
}

/// What a run leaves behind: the registers and the live stack, bottom first
/// in memory order (lowest address first).
pub struct ProcessingUnitState {
    pub registers: Vec<i32>,
    pub stack: Vec<i32>,
}

impl View for ProcessingUnit {
    type V = Machine;

    closed spec fn view(&self) -> Machine {
        Machine {
            registers: self.registers@,
            memory: self.memory@,
            stack_pointer: self.stack_pointer as int,
        }
    }
}

/// The stack pointer lies inside a non-empty memory.
pub open spec fn machine_wf(m: Machine) -> bool {
    &&& m.memory.len() >= 1
    &&& 0 <= m.stack_pointer < m.memory.len()
}

/// The values pushed and not yet popped: `memory(stack_pointer, M)`.
pub open spec fn stack_of(m: Machine) -> Seq<i32> {
    m.memory.subrange(m.stack_pointer + 1, m.memory.len() as int)
}

/// The fault for a register operand out of range, if any.
pub open spec fn bad1(m: Machine, a: usize) -> Option<Fault> {
    if a >= m.registers.len() {
        Some(Fault::RegisterOutOfBounds { index: a })
    } else {
        None
    }
}

/// The fault for the first of two register operands that is out of range.
pub open spec fn bad2(m: Machine, a: usize, b: usize) -> Option<Fault> {
    if a >= m.registers.len() {
        Some(Fault::RegisterOutOfBounds { index: a })
    } else {
        bad1(m, b)
    }
}

/// The fault for the first of three register operands that is out of range.
pub open spec fn bad3(m: Machine, a: usize, b: usize, c: usize) -> Option<Fault> {
    if a >= m.registers.len() {
        Some(Fault::RegisterOutOfBounds { index: a })
    } else {
        bad2(m, b, c)
    }
}

pub open spec fn with_register(m: Machine, reg: usize, v: i32) -> Machine {
    Machine { registers: m.registers.update(reg as int, v), ..m }
}

pub open spec fn binary_value(op: BinaryOp, a: i32, b: i32) -> i32 {
    match op {
        BinaryOp::Add => wrap_i32(a + b),
        BinaryOp::Sub => wrap_i32(a - b),
        BinaryOp::Mul => wrap_i32(a * b),
        BinaryOp::And => a & b,
        BinaryOp::Or => a | b,
        BinaryOp::Xor => a ^ b,
        BinaryOp::Shl => a << ((b as u32) % 32),
        BinaryOp::Shr => a >> ((b as u32) % 32),
    }
}

pub open spec fn unary_value(op: UnaryOp, a: i32) -> i32 {
    match op {
        UnaryOp::Neg => wrap_i32(-a),
        UnaryOp::Abs => wrap_i32(abs_int(a as int)),
        UnaryOp::Not => !a,
        UnaryOp::Inc => wrap_i32(a + 1),
        UnaryOp::Dec => wrap_i32(a - 1),
    }
}

/// `registers[r3] = registers[r1] op registers[r2]`.
pub open spec fn binary_spec(m: Machine, op: BinaryOp, r1: usize, r2: usize, r3: usize) -> Result<
    Machine,
    Fault,
> {
    match bad3(m, r1, r2, r3) {
        Some(f) => Err(f),
        None => Ok(with_register(m, r3, binary_value(op, m.registers[r1 as int], m.registers[r2 as int]))),
    }
}

/// `registers[r2] = op registers[r1]`.
pub open spec fn unary_spec(m: Machine, op: UnaryOp, r1: usize, r2: usize) -> Result<Machine, Fault> {
    match bad2(m, r1, r2) {
        Some(f) => Err(f),
        None => Ok(with_register(m, r2, unary_value(op, m.registers[r1 as int]))),
    }
}

/// Truncating division (`is_rem == false`) or remainder into `r3`.
pub open spec fn division_spec(m: Machine, is_rem: bool, r1: usize, r2: usize, r3: usize) -> Result<
    Machine,
    Fault,
> {
    match bad3(m, r1, r2, r3) {
        Some(f) => Err(f),
        None => {
            let a = m.registers[r1 as int] as int;
            let b = m.registers[r2 as int] as int;
            if b == 0 {
                Err(Fault::DivisionByZero { register: r2, value: 0 })
            } else if is_rem {
                Ok(with_register(m, r3, wrap_i32(trunc_rem(a, b))))
            } else {
                Ok(with_register(m, r3, wrap_i32(trunc_div(a, b))))
            }
        },
    }
}

pub open spec fn store_spec(m: Machine, reg: usize, addr: usize) -> Result<Machine, Fault> {
    match bad1(m, reg) {
        Some(f) => Err(f),
        None => if addr < m.memory.len() {
            Ok(Machine { memory: m.memory.update(addr as int, m.registers[reg as int]), ..m })
        } else {
            Err(Fault::MemoryOutOfBounds { address: addr })
        },
    }
}

pub open spec fn load_spec(m: Machine, addr: usize, reg: usize) -> Result<Machine, Fault> {
    match bad1(m, reg) {
        Some(f) => Err(f),
        None => if addr < m.memory.len() {
            Ok(with_register(m, reg, m.memory[addr as int]))
        } else {
            Err(Fault::MemoryOutOfBounds { address: addr })
        },
    }
}

pub open spec fn load_immediate_spec(m: Machine, reg: usize, v: i32) -> Result<Machine, Fault> {
    match bad1(m, reg) {
        Some(f) => Err(f),
        None => Ok(with_register(m, reg, v)),
    }
}

pub open spec fn push_spec(m: Machine, reg: usize) -> Result<Machine, Fault> {
    match bad1(m, reg) {
        Some(f) => Err(f),
        None => if m.stack_pointer > 0 {
            Ok(
                Machine {
                    memory: m.memory.update(m.stack_pointer, m.registers[reg as int]),
                    stack_pointer: m.stack_pointer - 1,
                    ..m
                },
            )
        } else {
            Err(Fault::StackOverflow { register: reg })
        },
    }
}

pub open spec fn pop_spec(m: Machine, reg: usize) -> Result<Machine, Fault> {
    match bad1(m, reg) {
        Some(f) => Err(f),
        None => if m.stack_pointer < m.memory.len() - 1 {
            Ok(
                Machine {
                    registers: m.registers.update(reg as int, m.memory[m.stack_pointer + 1]),
                    stack_pointer: m.stack_pointer + 1,
                    ..m
                },
            )
        } else {
            Err(Fault::StackUnderflow { register: reg })
        },
    }
}

/// `registers[dst] = registers[src]`: destination first.
pub open spec fn mov_spec(m: Machine, dst: usize, src: usize) -> Result<Machine, Fault> {
    match bad2(m, dst, src) {
        Some(f) => Err(f),
        None => Ok(with_register(m, dst, m.registers[src as int])),
    }
}

/// The value of a register, or the fault for an index out of range.
pub open spec fn read_spec(m: Machine, reg: usize) -> Result<i32, Fault> {
    match bad1(m, reg) {
        Some(f) => Err(f),
        None => Ok(m.registers[reg as int]),
    }
}

/// An operation went as `expected` says: on success the state is the one
/// expected, on a fault nothing was changed.
pub open spec fn applied(
    before: Machine,
    after: Machine,
    r: Result<(), Fault>,
    expected: Result<Machine, Fault>,
) -> bool {
    match expected {
        Ok(m) => r is Ok && after == m,
        Err(f) => r == Err::<(), Fault>(f) && after == before,
    }
}

impl ProcessingUnit {
    /// `num_registers` zeroed registers, `memory_size` zeroed words, and an
    /// empty stack whose pointer sits at the top of memory.
    pub fn initialize(num_registers: usize, memory_size: usize) -> (r: Self)
        requires
            memory_size >= 1,
        ensures
            r@.registers == Seq::new(num_registers as nat, |i: int| 0i32),
            r@.memory == Seq::new(memory_size as nat, |i: int| 0i32),
            r@.stack_pointer == memory_size - 1,
            machine_wf(r@),
    {
        let r = ProcessingUnit {
            registers: vec![0; num_registers],
            memory: vec![0; memory_size],
            stack_pointer: memory_size - 1,
        };
        assert(r@.registers =~= Seq::new(num_registers as nat, |i: int| 0i32));
        assert(r@.memory =~= Seq::new(memory_size as nat, |i: int| 0i32));
        r
    }

    /// Fails with `RegisterOutOfBounds` unless `reg` names a register.
    pub fn check_register_bounds(&self, reg: usize) -> (r: Result<(), Fault>)
        ensures
            r == match bad1(self@, reg) {
                Some(f) => Err::<(), Fault>(f),
                None => Ok(()),
            },
    {
        if reg >= self.registers.len() {
            Err(Fault::RegisterOutOfBounds { index: reg })
        } else {
            Ok(())
        }
    }

    fn check2(&self, a: usize, b: usize) -> (r: Result<(), Fault>)
        ensures
            r == match bad2(self@, a, b) {
                Some(f) => Err::<(), Fault>(f),
                None => Ok(()),
            },
    {
        self.check_register_bounds(a)?;
        self.check_register_bounds(b)
    }

    fn check3(&self, a: usize, b: usize, c: usize) -> (r: Result<(), Fault>)
        ensures
            r == match bad3(self@, a, b, c) {
                Some(f) => Err::<(), Fault>(f),
                None => Ok(()),
            },
    {
        self.check_register_bounds(a)?;
        self.check2(b, c)
    }

    /// The value of register `reg`.
    pub fn read_register(&self, reg: usize) -> (r: Result<i32, Fault>)
        ensures
            r == read_spec(self@, reg),
    {
        self.check_register_bounds(reg)?;
        Ok(self.registers[reg])
    }

    /// `registers[r3] = registers[r1] op registers[r2]`, wrapping on overflow.
    pub fn binary(&mut self, op: BinaryOp, r1: usize, r2: usize, r3: usize) -> (r: Result<(), Fault>)
        requires
            machine_wf(old(self)@),
        ensures
            applied(old(self)@, final(self)@, r, binary_spec(old(self)@, op, r1, r2, r3)),
            machine_wf(final(self)@),
    {
        self.check3(r1, r2, r3)?;
        let a = self.registers[r1];
        let b = self.registers[r2];
        let v = match op {
            BinaryOp::Add => add_wrapping(a, b),
            BinaryOp::Sub => sub_wrapping(a, b),
            BinaryOp::Mul => mul_wrapping(a, b),
            BinaryOp::And => a & b,
            BinaryOp::Or => a | b,
            BinaryOp::Xor => a ^ b,
            BinaryOp::Shl => a.wrapping_shl(b as u32),
            BinaryOp::Shr => a.wrapping_shr(b as u32),
        };
        self.registers.set(r3, v);
        Ok(())
    }

    /// `registers[r2] = op registers[r1]`, wrapping on overflow.
    pub fn unary(&mut self, op: UnaryOp, r1: usize, r2: usize) -> (r: Result<(), Fault>)
        requires
            machine_wf(old(self)@),
        ensures
            applied(old(self)@, final(self)@, r, unary_spec(old(self)@, op, r1, r2)),
            machine_wf(final(self)@),
    {
        self.check2(r1, r2)?;
        let a = self.registers[r1];
        let v = match op {
            UnaryOp::Neg => neg_wrapping(a),
            UnaryOp::Abs => abs_wrapping(a),
            UnaryOp::Not => !a,
            UnaryOp::Inc => add_wrapping(a, 1),
            UnaryOp::Dec => sub_wrapping(a, 1),
        };
        self.registers.set(r2, v);
        Ok(())
    }

    fn division(&mut self, is_rem: bool, r1: usize, r2: usize, r3: usize) -> (r: Result<(), Fault>)
        requires
            machine_wf(old(self)@),
        ensures
            applied(old(self)@, final(self)@, r, division_spec(old(self)@, is_rem, r1, r2, r3)),
            machine_wf(final(self)@),
    {
        self.check3(r1, r2, r3)?;
        let a = self.registers[r1];
        let b = self.registers[r2];
        if b == 0 {
            return Err(Fault::DivisionByZero { register: r2, value: b });
        }
        let v = if is_rem {
            rem_wrapping(a, b)
        } else {
            div_wrapping(a, b)
        };
        self.registers.set(r3, v);
        Ok(())
    }

    pub fn add(&mut self, r1: usize, r2: usize, r3: usize) -> (r: Result<(), Fault>)
        requires
            machine_wf(old(self)@),
        ensures
            applied(old(self)@, final(self)@, r, binary_spec(old(self)@, BinaryOp::Add, r1, r2, r3)),
            machine_wf(final(self)@),
    {
        self.binary(BinaryOp::Add, r1, r2, r3)
    }

    pub fn subtract(&mut self, r1: usize, r2: usize, r3: usize) -> (r: Result<(), Fault>)
        requires
            machine_wf(old(self)@),
        ensures
            applied(old(self)@, final(self)@, r, binary_spec(old(self)@, BinaryOp::Sub, r1, r2, r3)),
            machine_wf(final(self)@),
    {
        self.binary(BinaryOp::Sub, r1, r2, r3)
    }

    pub fn multiply(&mut self, r1: usize, r2: usize, r3: usize) -> (r: Result<(), Fault>)
        requires
            machine_wf(old(self)@),
        ensures
            applied(old(self)@, final(self)@, r, binary_spec(old(self)@, BinaryOp::Mul, r1, r2, r3)),
            machine_wf(final(self)@),
    {
        self.binary(BinaryOp::Mul, r1, r2, r3)
    }

    /// Truncating division; a zero divisor is a fault.
    pub fn divide(&mut self, r1: usize, r2: usize, r3: usize) -> (r: Result<(), Fault>)
        requires
            machine_wf(old(self)@),
        ensures
            applied(old(self)@, final(self)@, r, division_spec(old(self)@, false, r1, r2, r3)),
            machine_wf(final(self)@),
    {
        self.division(false, r1, r2, r3)
    }

    /// Truncating remainder; a zero divisor is a fault.
    pub fn mod_op(&mut self, r1: usize, r2: usize, r3: usize) -> (r: Result<(), Fault>)
        requires
            machine_wf(old(self)@),
        ensures
            applied(old(self)@, final(self)@, r, division_spec(old(self)@, true, r1, r2, r3)),
            machine_wf(final(self)@),
    {
        self.division(true, r1, r2, r3)
    }

    pub fn neg(&mut self, r1: usize, r2: usize) -> (r: Result<(), Fault>)
        requires
            machine_wf(old(self)@),
        ensures
            applied(old(self)@, final(self)@, r, unary_spec(old(self)@, UnaryOp::Neg, r1, r2)),
            machine_wf(final(self)@),
    {
        self.unary(UnaryOp::Neg, r1, r2)
    }

    /// Absolute value; that of `i32::MIN` wraps to `i32::MIN`.
    pub fn absolute(&mut self, r1: usize, r2: usize) -> (r: Result<(), Fault>)
        requires
            machine_wf(old(self)@),
        ensures
            applied(old(self)@, final(self)@, r, unary_spec(old(self)@, UnaryOp::Abs, r1, r2)),
            machine_wf(final(self)@),
    {
        self.unary(UnaryOp::Abs, r1, r2)
    }

    /// `memory[addr] = registers[reg]`.
    pub fn store(&mut self, reg: usize, addr: usize) -> (r: Result<(), Fault>)
        requires
            machine_wf(old(self)@),
        ensures
            applied(old(self)@, final(self)@, r, store_spec(old(self)@, reg, addr)),
            machine_wf(final(self)@),
    {
        self.check_register_bounds(reg)?;
        if addr < self.memory.len() {
            let v = self.registers[reg];
            self.memory.set(addr, v);
            Ok(())
        } else {
            Err(Fault::MemoryOutOfBounds { address: addr })
        }
    }

    /// `registers[reg] = memory[addr]`.
    pub fn load(&mut self, addr: usize, reg: usize) -> (r: Result<(), Fault>)
        requires
            machine_wf(old(self)@),
        ensures
            applied(old(self)@, final(self)@, r, load_spec(old(self)@, addr, reg)),
            machine_wf(final(self)@),
    {
        self.check_register_bounds(reg)?;
        if addr < self.memory.len() {
            let v = self.memory[addr];
            self.registers.set(reg, v);
            Ok(())
        } else {
            Err(Fault::MemoryOutOfBounds { address: addr })
        }
    }

    /// `registers[reg] = v`.
    pub fn load_immediate(&mut self, reg: usize, v: i32) -> (r: Result<(), Fault>)
        requires
            machine_wf(old(self)@),
        ensures
            applied(old(self)@, final(self)@, r, load_immediate_spec(old(self)@, reg, v)),
            machine_wf(final(self)@),
    {
        self.check_register_bounds(reg)?;
        self.registers.set(reg, v);
        Ok(())
    }

    /// Writes `registers[reg]` at the stack pointer, then moves it down.
    pub fn push(&mut self, reg: usize) -> (r: Result<(), Fault>)
        requires
            machine_wf(old(self)@),
        ensures
            applied(old(self)@, final(self)@, r, push_spec(old(self)@, reg)),
            machine_wf(final(self)@),
    {
        self.check_register_bounds(reg)?;
        if self.stack_pointer > 0 {
            let v = self.registers[reg];
            let sp = self.stack_pointer;
            self.memory.set(sp, v);
            self.stack_pointer = sp - 1;
            Ok(())
        } else {
            Err(Fault::StackOverflow { register: reg })
        }
    }

    /// Moves the stack pointer up, then reads the word there into `reg`.
    pub fn pop(&mut self, reg: usize) -> (r: Result<(), Fault>)
        requires
            machine_wf(old(self)@),
        ensures
            applied(old(self)@, final(self)@, r, pop_spec(old(self)@, reg)),
            machine_wf(final(self)@),
    {
        self.check_register_bounds(reg)?;
        if self.stack_pointer < self.memory.len() - 1 {
            self.stack_pointer = self.stack_pointer + 1;
            let v = self.memory[self.stack_pointer];
            self.registers.set(reg, v);
            Ok(())
        } else {
            Err(Fault::StackUnderflow { register: reg })
        }
    }

    /// `registers[dst] = registers[src]`: the destination comes first.
    pub fn mov(&mut self, dst: usize, src: usize) -> (r: Result<(), Fault>)
        requires
            machine_wf(old(self)@),
        ensures
            applied(old(self)@, final(self)@, r, mov_spec(old(self)@, dst, src)),
            machine_wf(final(self)@),
    {
        self.check2(dst, src)?;
        let v = self.registers[src];
        self.registers.set(dst, v);
        Ok(())
    }

    /// The index of the next free stack slot.
    pub fn stack_pointer(&self) -> (r: usize)
        ensures
            r == self@.stack_pointer,
    {
        self.stack_pointer
    }

    /// The registers and the live stack, copied out.
    pub fn snapshot(&self) -> (r: ProcessingUnitState)
        requires
            machine_wf(self@),
        ensures
            r.registers@ == self@.registers,
            r.stack@ == stack_of(self@),
    {
        let mut stack: Vec<i32> = Vec::new();
        let n: usize = self.memory.len();
        assert(self.stack_pointer < n);
        let mut i: usize = self.stack_pointer + 1;
        while i < self.memory.len()
            invariant
                self.stack_pointer + 1 <= i <= self.memory.len(),
                stack@ == self.memory@.subrange(self.stack_pointer + 1, i as int),
            decreases self.memory.len() - i,
        {
            stack.push(self.memory[i]);
            i = i + 1;
            assert(stack@ =~= self.memory@.subrange(self.stack_pointer + 1, i as int));
        }
        ProcessingUnitState { registers: self.registers.clone(), stack }
    }
}

} // verus!
