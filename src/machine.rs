//! The machine: its state, the meaning of one instruction, and the engine
//! that runs instructions until the program halts or waits for input.
use std::collections::VecDeque;
use vstd::prelude::*;

use crate::loader::{FormatError, MEM_SIZE};

verus! {

/// Number of general registers.
pub const NUM_REGS: usize = 8;

/// The first word that names a register rather than a literal value.
pub const REG_BASE: u16 = 32768;

/// Why a run stopped with a fault. A fault leaves the machine unchanged.
#[derive(Clone, Copy, Debug, PartialEq, Eq, Structural)]
pub enum VmError {
    /// The word at the instruction pointer is no opcode.
    InvalidOpcode,
    /// An operand is neither a literal nor a register, or a destination is
    /// neither a memory address nor a register.
    InvalidOperand,
    /// An instruction or a memory access reaches past the end of memory.
    InvalidAddress,
    /// `pop` on an empty stack.
    StackUnderflow,
    /// `mod` with a divisor of zero.
    DivisionByZero,
}

/// What one instruction, or a run, ended with.
#[derive(Clone, Copy, Debug, PartialEq, Eq, Structural)]
pub enum Status {
    /// The machine can go on with the next instruction.
    Running,
    /// The program halted.
    Halted,
    /// The program waits at an `in` instruction for input.
    PendingInput,
}

/// The state of a machine, as mathematical values.
pub struct MachineState {
    pub ip: int,
    pub mem: Seq<u16>,
    pub reg: Seq<u16>,
    pub stack: Seq<u16>,
    pub input: Seq<u16>,
    pub output: Seq<u8>,
}

/// What one instruction, or a run, leads to: the next state and how it ended.
pub type Outcome = (MachineState, Result<Status, VmError>);

impl MachineState {
    /// Memory and registers have their fixed sizes.
    pub open spec fn valid(self) -> bool {
        &&& self.mem.len() == MEM_SIZE
        &&& self.reg.len() == NUM_REGS
    }

    /// The same state with the instruction pointer at `ip`.
    pub open spec fn with_ip(self, ip: int) -> MachineState {
        MachineState { ip, ..self }
    }

    /// The same state with the instruction pointer moved on by `n` words.
    pub open spec fn advance(self, n: int) -> MachineState {
        self.with_ip(self.ip + n)
    }

    /// The same state with `stack` as its stack.
    pub open spec fn with_stack(self, stack: Seq<u16>) -> MachineState {
        MachineState { stack, ..self }
    }
}

/// The state of a machine freshly loaded with `prog`.
pub open spec fn initial_state(prog: Seq<u16>) -> MachineState {
    MachineState {
        ip: 0,
        mem: Seq::new(MEM_SIZE as nat, |i: int| if i < prog.len() { prog[i] } else { 0u16 }),
        reg: Seq::new(NUM_REGS as nat, |i: int| 0u16),
        stack: Seq::empty(),
        input: Seq::empty(),
        output: Seq::empty(),
    }
}

/// A word below 32768 stands for itself.
pub open spec fn is_literal(w: u16) -> bool {
    w < REG_BASE
}

/// A word in 32768..=32775 names a register.
pub open spec fn is_register(w: u16) -> bool {
    REG_BASE <= w < REG_BASE + NUM_REGS
}

/// The word stored at memory address `addr`.
pub open spec fn fetch(s: MachineState, addr: int) -> Result<u16, VmError> {
    if 0 <= addr < MEM_SIZE {
        Ok(s.mem[addr])
    } else {
        Err(VmError::InvalidAddress)
    }
}

/// The value of the operand stored at `addr`: a literal as it stands, a
/// register reference as the register's content.
pub open spec fn resolve(s: MachineState, addr: int) -> Result<u16, VmError> {
    match fetch(s, addr) {
        Ok(w) => if is_literal(w) {
            Ok(w)
        } else if is_register(w) {
            Ok(s.reg[w - REG_BASE])
        } else {
            Err(VmError::InvalidOperand)
        },
        Err(e) => Err(e),
    }
}

/// The state after writing `v` to destination `a`: a memory address or a register.
pub open spec fn store(s: MachineState, a: u16, v: u16) -> Result<MachineState, VmError> {
    if is_literal(a) {
        Ok(MachineState { mem: s.mem.update(a as int, v), ..s })
    } else if is_register(a) {
        Ok(MachineState { reg: s.reg.update(a - REG_BASE, v), ..s })
    } else {
        Err(VmError::InvalidOperand)
    }
}

/// The value that a three-operand instruction computes from `b` and `c`.
pub open spec fn binary_result(op: u16, b: u16, c: u16) -> Result<u16, VmError> {
    if op == 4 {
        Ok(if b == c { 1u16 } else { 0u16 })
    } else if op == 5 {
        Ok(if b > c { 1u16 } else { 0u16 })
    } else if op == 9 {
        Ok(((b + c) % 32768) as u16)
    } else if op == 10 {
        Ok(((b * c) % 32768) as u16)
    } else if op == 11 {
        if c == 0 {
            Err(VmError::DivisionByZero)
        } else {
            Ok((b % c) as u16)
        }
    } else if op == 12 {
        Ok(b & c)
    } else {
        Ok(b | c)
    }
}

/// The 15-bit complement of `b`.
pub open spec fn complement(b: u16) -> u16 {
    !b & 0x7fffu16
}

/// The character that `out` emits for `v`: its low byte.
pub open spec fn low_byte(v: u16) -> u8 {
    (v % 256) as u8
}

/// An instruction that ends by writing `v` to the destination operand read at
/// `ip + 1`, then moves on by `width` words.
pub open spec fn write_and_advance(s: MachineState, v: u16, width: int) -> Outcome {
    match fetch(s, s.ip + 1) {
        Ok(a) => match store(s, a, v) {
            Ok(t) => (t.advance(width), Ok(Status::Running)),
            Err(e) => (s, Err(e)),
        },
        Err(e) => (s, Err(e)),
    }
}

/// set a b
pub open spec fn step_set(s: MachineState) -> Outcome {
    match fetch(s, s.ip + 1) {
        Err(e) => (s, Err(e)),
        Ok(_) => match resolve(s, s.ip + 2) {
            Ok(b) => write_and_advance(s, b, 3),
            Err(e) => (s, Err(e)),
        },
    }
}

/// push a
pub open spec fn step_push(s: MachineState) -> Outcome {
    match resolve(s, s.ip + 1) {
        Ok(a) => (s.with_stack(s.stack.push(a)).advance(2), Ok(Status::Running)),
        Err(e) => (s, Err(e)),
    }
}

/// pop a
pub open spec fn step_pop(s: MachineState) -> Outcome {
    match fetch(s, s.ip + 1) {
        Err(e) => (s, Err(e)),
        Ok(a) => if s.stack.len() == 0 {
            (s, Err(VmError::StackUnderflow))
        } else {
            match store(s, a, s.stack.last()) {
                Ok(t) => (t.with_stack(s.stack.drop_last()).advance(2), Ok(Status::Running)),
                Err(e) => (s, Err(e)),
            }
        },
    }
}

/// eq, gt, add, mult, mod, and, or: `a = b op c`
pub open spec fn step_binary(s: MachineState, op: u16) -> Outcome {
    match fetch(s, s.ip + 1) {
        Err(e) => (s, Err(e)),
        Ok(_) => match resolve(s, s.ip + 2) {
            Err(e) => (s, Err(e)),
            Ok(b) => match resolve(s, s.ip + 3) {
                Err(e) => (s, Err(e)),
                Ok(c) => match binary_result(op, b, c) {
                    Err(e) => (s, Err(e)),
                    Ok(v) => write_and_advance(s, v, 4),
                },
            },
        },
    }
}

/// jmp a
pub open spec fn step_jmp(s: MachineState) -> Outcome {
    match resolve(s, s.ip + 1) {
        Ok(a) => (s.with_ip(a as int), Ok(Status::Running)),
        Err(e) => (s, Err(e)),
    }
}

/// jt a b (`when_nonzero`) and jf a b (not `when_nonzero`)
pub open spec fn step_jump_if(s: MachineState, when_nonzero: bool) -> Outcome {
    match resolve(s, s.ip + 1) {
        Err(e) => (s, Err(e)),
        Ok(a) => match resolve(s, s.ip + 2) {
            Err(e) => (s, Err(e)),
            Ok(b) => if (a != 0) == when_nonzero {
                (s.with_ip(b as int), Ok(Status::Running))
            } else {
                (s.advance(3), Ok(Status::Running))
            },
        },
    }
}

/// not a b
pub open spec fn step_not(s: MachineState) -> Outcome {
    match fetch(s, s.ip + 1) {
        Err(e) => (s, Err(e)),
        Ok(_) => match resolve(s, s.ip + 2) {
            Ok(b) => write_and_advance(s, complement(b), 3),
            Err(e) => (s, Err(e)),
        },
    }
}

/// rmem a b: `a = memory[b]`
pub open spec fn step_rmem(s: MachineState) -> Outcome {
    match fetch(s, s.ip + 1) {
        Err(e) => (s, Err(e)),
        Ok(_) => match resolve(s, s.ip + 2) {
            Err(e) => (s, Err(e)),
            Ok(b) => match fetch(s, b as int) {
                Ok(v) => write_and_advance(s, v, 3),
                Err(e) => (s, Err(e)),
            },
        },
    }
}

/// wmem a b: `memory[a] = b`
pub open spec fn step_wmem(s: MachineState) -> Outcome {
    match resolve(s, s.ip + 1) {
        Err(e) => (s, Err(e)),
        Ok(a) => match resolve(s, s.ip + 2) {
            Err(e) => (s, Err(e)),
            Ok(b) => if a < MEM_SIZE {
                (MachineState { mem: s.mem.update(a as int, b), ..s }.advance(3), Ok(Status::Running))
            } else {
                (s, Err(VmError::InvalidAddress))
            },
        },
    }
}

/// call a
pub open spec fn step_call(s: MachineState) -> Outcome {
    match resolve(s, s.ip + 1) {
        Ok(a) => (s.with_stack(s.stack.push((s.ip + 2) as u16)).with_ip(a as int), Ok(Status::Running)),
        Err(e) => (s, Err(e)),
    }
}

/// ret: an empty stack halts the program.
pub open spec fn step_ret(s: MachineState) -> Outcome {
    if s.stack.len() == 0 {
        (s, Ok(Status::Halted))
    } else {
        (s.with_stack(s.stack.drop_last()).with_ip(s.stack.last() as int), Ok(Status::Running))
    }
}

/// out a
pub open spec fn step_out(s: MachineState) -> Outcome {
    match resolve(s, s.ip + 1) {
        Ok(a) => (MachineState { output: s.output.push(low_byte(a)), ..s }.advance(2), Ok(Status::Running)),
        Err(e) => (s, Err(e)),
    }
}

/// in a: waits, unchanged, while the input queue is empty.
pub open spec fn step_in(s: MachineState) -> Outcome {
    if s.input.len() == 0 {
        (s, Ok(Status::PendingInput))
    } else {
        match fetch(s, s.ip + 1) {
            Err(e) => (s, Err(e)),
            Ok(a) => match store(s, a, s.input[0]) {
                Ok(t) => (MachineState { input: s.input.drop_first(), ..t }.advance(2), Ok(Status::Running)),
                Err(e) => (s, Err(e)),
            },
        }
    }
}

/// The effect of executing the instruction at the instruction pointer.
pub open spec fn step(s: MachineState) -> Outcome {
    match fetch(s, s.ip) {
        Err(e) => (s, Err(e)),
        Ok(op) => if op == 0 {
            (s, Ok(Status::Halted))
        } else if op == 1 {
            step_set(s)
        } else if op == 2 {
            step_push(s)
        } else if op == 3 {
            step_pop(s)
        } else if op == 6 {
            step_jmp(s)
        } else if op == 7 {
            step_jump_if(s, true)
        } else if op == 8 {
            step_jump_if(s, false)
        } else if op == 14 {
            step_not(s)
        } else if op == 15 {
            step_rmem(s)
        } else if op == 16 {
            step_wmem(s)
        } else if op == 17 {
            step_call(s)
        } else if op == 18 {
            step_ret(s)
        } else if op == 19 {
            step_out(s)
        } else if op == 20 {
            step_in(s)
        } else if op == 21 {
            (s.advance(1), Ok(Status::Running))
        } else if 4 <= op <= 13 {
            step_binary(s, op)
        } else {
            (s, Err(VmError::InvalidOpcode))
        },
    }
}


/// A machine loaded with a program. Callers feed it input through `input`
/// (or `enqueue_input`) and collect what it printed with `take_output`.
pub struct VirtualMachine {
    /// Words waiting to be read by `in`, first in first out.
    pub input: VecDeque<u16>,
    ip: usize,
    mem: Vec<u16>,
    reg: Vec<u16>,
    stack: Vec<u16>,
    output: Vec<u8>,
}

impl View for VirtualMachine {
    type V = MachineState;

    closed spec fn view(&self) -> MachineState {
        MachineState {
            ip: self.ip as int,
            mem: self.mem@,
            reg: self.reg@,
            stack: self.stack@,
            input: self.input@,
            output: self.output@,
        }
    }
}

impl VirtualMachine {
    /// Memory and registers have their fixed sizes.
    pub open spec fn wf(&self) -> bool {
        self@.valid()
    }

    /// A machine with `prog` at the start of memory, the rest of memory,
    /// the registers and the stack zero or empty, and `ip` at 0.
    /// Fails with `TooLarge` if `prog` has more words than memory.
    pub fn new(prog: &[u16]) -> (r: Result<VirtualMachine, FormatError>)
        ensures
            prog@.len() > MEM_SIZE <==> r is Err,
            r matches Err(e) ==> e == FormatError::TooLarge,
            r matches Ok(vm) ==> vm.wf() && vm@ == initial_state(prog@),
    {
        if prog.len() > MEM_SIZE {
            return Err(FormatError::TooLarge);
        }
        let mut mem: Vec<u16> = Vec::new();
        let mut i: usize = 0;
        while i < MEM_SIZE
            invariant
                prog@.len() <= MEM_SIZE,
                i <= MEM_SIZE,
                mem@.len() == i,
                forall|j: int| 0 <= j < i ==> mem@[j] == (if j < prog@.len() { prog@[j] } else { 0u16 }),
            decreases MEM_SIZE - i,
        {
            if i < prog.len() {
                mem.push(prog[i]);
            } else {
                mem.push(0);
            }
            i = i + 1;
        }
        let vm = VirtualMachine {
            input: VecDeque::new(),
            ip: 0,
            mem,
            reg: vec![0u16; NUM_REGS],
            stack: Vec::new(),
            output: Vec::new(),
        };
        assert(vm@.mem =~= initial_state(prog@).mem);
        assert(vm@.reg =~= initial_state(prog@).reg);
        assert(vm@.stack =~= Seq::<u16>::empty());
        assert(vm@.input =~= Seq::<u16>::empty());
        assert(vm@.output =~= Seq::<u8>::empty());
        Ok(vm)
    }

    /// Appends one word to the input queue.
    pub fn enqueue_input(&mut self, w: u16)
        ensures
            final(self)@ == (MachineState { input: old(self)@.input.push(w), ..old(self)@ }),
    {
        self.input.push_back(w);
    }

    /// Hands out, and forgets, the characters printed so far.
    pub fn take_output(&mut self) -> (r: Vec<u8>)
        ensures
            r@ == old(self)@.output,
            final(self)@ == (MachineState { output: Seq::empty(), ..old(self)@ }),
    {
        let mut out: Vec<u8> = Vec::new();
        std::mem::swap(&mut out, &mut self.output);
        out
    }

    /// The instruction pointer.
    pub fn ip(&self) -> (r: usize)
        ensures
            r as int == self@.ip,
    {
        self.ip
    }

    /// The content of register `i`.
    pub fn register(&self, i: usize) -> (r: u16)
        requires
            self.wf(),
            i < NUM_REGS,
        ensures
            r == self@.reg[i as int],
    {
        self.reg[i]
    }

    /// The word at memory address `addr`.
    pub fn read_mem(&self, addr: usize) -> (r: u16)
        requires
            self.wf(),
            addr < MEM_SIZE,
        ensures
            r == self@.mem[addr as int],
    {
        self.mem[addr]
    }

    /// The stack, bottom first.
    pub fn stack(&self) -> (r: &Vec<u16>)
        ensures
            r@ == self@.stack,
    {
        &self.stack
    }

    /// The word at memory address `addr`, or `InvalidAddress` past the end of memory.
    fn fetch(&self, addr: usize) -> (r: Result<u16, VmError>)
        requires
            self.wf(),
        ensures
            r == fetch(self@, addr as int),
    {
        if addr < MEM_SIZE {
            Ok(self.mem[addr])
        } else {
            Err(VmError::InvalidAddress)
        }
    }

    /// The register index that a register reference names.
    pub fn get_reg(number: u16) -> (r: Result<usize, VmError>)
        ensures
            is_register(number) <==> r is Ok,
            r matches Ok(i) ==> i == number - REG_BASE && i < NUM_REGS,
            r matches Err(e) ==> e == VmError::InvalidOperand,
    {
        if REG_BASE <= number && number < REG_BASE + NUM_REGS as u16 {
            Ok((number - REG_BASE) as usize)
        } else {
            Err(VmError::InvalidOperand)
        }
    }

    /// The value of the operand stored at memory address `addr`: a literal as
    /// it stands, a register reference as the register's content.
    pub fn get_value(&self, addr: usize) -> (r: Result<u16, VmError>)
        requires
            self.wf(),
        ensures
            r == resolve(self@, addr as int),
    {
        let number = self.fetch(addr)?;
        if number < REG_BASE {
            Ok(number)
        } else {
            let i = Self::get_reg(number)?;
            Ok(self.reg[i])
        }
    }

    /// Writes `value` to destination `addr`: a memory address or a register.
    /// On an invalid destination nothing changes.
    pub fn set_value(&mut self, addr: u16, value: u16) -> (r: Result<(), VmError>)
        requires
            old(self).wf(),
        ensures
            final(self).wf(),
            match store(old(self)@, addr, value) {
                Ok(t) => r is Ok && final(self)@ == t,
                Err(e) => r == Err::<(), VmError>(e) && final(self)@ == old(self)@,
            },
    {
        if addr < REG_BASE {
            self.mem.set(addr as usize, value);
        } else {
            let i = Self::get_reg(addr)?;
            self.reg.set(i, value);
        }
        Ok(())
    }

    /// set a b: writes the value of `b` to `a`.
    fn op_set(&mut self) -> (r: Result<Status, VmError>)
        requires
            old(self).wf(),
            fetch(old(self)@, old(self)@.ip) == Ok::<u16, VmError>(1),
        ensures
            final(self).wf(),
            (final(self)@, r) == step(old(self)@),
    {
        let a = self.fetch(self.ip + 1)?;
        let b = self.get_value(self.ip + 2)?;
        self.set_value(a, b)?;
        self.ip = self.ip + 3;
        Ok(Status::Running)
    }

    /// push a: pushes the value of `a`.
    fn op_push(&mut self) -> (r: Result<Status, VmError>)
        requires
            old(self).wf(),
            fetch(old(self)@, old(self)@.ip) == Ok::<u16, VmError>(2),
        ensures
            final(self).wf(),
            (final(self)@, r) == step(old(self)@),
    {
        let a = self.get_value(self.ip + 1)?;
        self.stack.push(a);
        self.ip = self.ip + 2;
        Ok(Status::Running)
    }

    /// pop a: pops the top of the stack into `a`.
    fn op_pop(&mut self) -> (r: Result<Status, VmError>)
        requires
            old(self).wf(),
            fetch(old(self)@, old(self)@.ip) == Ok::<u16, VmError>(3),
        ensures
            final(self).wf(),
            (final(self)@, r) == step(old(self)@),
    {
        let a = self.fetch(self.ip + 1)?;
        let n = self.stack.len();
        if n == 0 {
            return Err(VmError::StackUnderflow);
        }
        let val = self.stack[n - 1];
        self.set_value(a, val)?;
        self.stack.pop();
        self.ip = self.ip + 2;
        Ok(Status::Running)
    }

    /// eq a b c: `a` is 1 if `b` equals `c`, else 0.
    fn op_eq(&mut self) -> (r: Result<Status, VmError>)
        requires
            old(self).wf(),
            fetch(old(self)@, old(self)@.ip) == Ok::<u16, VmError>(4),
        ensures
            final(self).wf(),
            (final(self)@, r) == step(old(self)@),
    {
        let a = self.fetch(self.ip + 1)?;
        let b = self.get_value(self.ip + 2)?;
        let c = self.get_value(self.ip + 3)?;
        let v: u16 = if b == c { 1 } else { 0 };
        self.set_value(a, v)?;
        self.ip = self.ip + 4;
        Ok(Status::Running)
    }

    /// gt a b c: `a` is 1 if `b` is greater than `c`, else 0.
    fn op_gt(&mut self) -> (r: Result<Status, VmError>)
        requires
            old(self).wf(),
            fetch(old(self)@, old(self)@.ip) == Ok::<u16, VmError>(5),
        ensures
            final(self).wf(),
            (final(self)@, r) == step(old(self)@),
    {
        let a = self.fetch(self.ip + 1)?;
        let b = self.get_value(self.ip + 2)?;
        let c = self.get_value(self.ip + 3)?;
        let v: u16 = if b > c { 1 } else { 0 };
        self.set_value(a, v)?;
        self.ip = self.ip + 4;
        Ok(Status::Running)
    }

    /// add a b c: `a` is `b + c` modulo 32768.
    fn op_add(&mut self) -> (r: Result<Status, VmError>)
        requires
            old(self).wf(),
            fetch(old(self)@, old(self)@.ip) == Ok::<u16, VmError>(9),
        ensures
            final(self).wf(),
            (final(self)@, r) == step(old(self)@),
    {
        let a = self.fetch(self.ip + 1)?;
        let b = self.get_value(self.ip + 2)?;
        let c = self.get_value(self.ip + 3)?;
        let v: u16 = ((b as u32 + c as u32) % 32768) as u16;
        self.set_value(a, v)?;
        self.ip = self.ip + 4;
        Ok(Status::Running)
    }

    /// mult a b c: `a` is `b * c` modulo 32768.
    fn op_mult(&mut self) -> (r: Result<Status, VmError>)
        requires
            old(self).wf(),
            fetch(old(self)@, old(self)@.ip) == Ok::<u16, VmError>(10),
        ensures
            final(self).wf(),
            (final(self)@, r) == step(old(self)@),
    {
        let a = self.fetch(self.ip + 1)?;
        let b = self.get_value(self.ip + 2)?;
        let c = self.get_value(self.ip + 3)?;
        assert((b as u64) * (c as u64) <= 0xffffu64 * 0xffffu64) by (nonlinear_arith)
            requires
                b <= 0xffff,
                c <= 0xffff,
        ;
        let wide: u64 = b as u64 * c as u64;
        let v = (wide % 32768) as u16;
        self.set_value(a, v)?;
        self.ip = self.ip + 4;
        Ok(Status::Running)
    }

    /// mod a b c: `a` is the remainder of `b` divided by `c`; a divisor of zero is a fault.
    fn op_mod(&mut self) -> (r: Result<Status, VmError>)
        requires
            old(self).wf(),
            fetch(old(self)@, old(self)@.ip) == Ok::<u16, VmError>(11),
        ensures
            final(self).wf(),
            (final(self)@, r) == step(old(self)@),
    {
        let a = self.fetch(self.ip + 1)?;
        let b = self.get_value(self.ip + 2)?;
        let c = self.get_value(self.ip + 3)?;
        if c == 0 {
            return Err(VmError::DivisionByZero);
        }
        let v = b % c;
        self.set_value(a, v)?;
        self.ip = self.ip + 4;
        Ok(Status::Running)
    }

    /// and a b c: `a` is the bitwise and of `b` and `c`.
    fn op_and(&mut self) -> (r: Result<Status, VmError>)
        requires
            old(self).wf(),
            fetch(old(self)@, old(self)@.ip) == Ok::<u16, VmError>(12),
        ensures
            final(self).wf(),
            (final(self)@, r) == step(old(self)@),
    {
        let a = self.fetch(self.ip + 1)?;
        let b = self.get_value(self.ip + 2)?;
        let c = self.get_value(self.ip + 3)?;
        let v: u16 = b & c;
        self.set_value(a, v)?;
        self.ip = self.ip + 4;
        Ok(Status::Running)
    }

    /// or a b c: `a` is the bitwise or of `b` and `c`.
    fn op_or(&mut self) -> (r: Result<Status, VmError>)
        requires
            old(self).wf(),
            fetch(old(self)@, old(self)@.ip) == Ok::<u16, VmError>(13),
        ensures
            final(self).wf(),
            (final(self)@, r) == step(old(self)@),
    {
        let a = self.fetch(self.ip + 1)?;
        let b = self.get_value(self.ip + 2)?;
        let c = self.get_value(self.ip + 3)?;
        let v: u16 = b | c;
        self.set_value(a, v)?;
        self.ip = self.ip + 4;
        Ok(Status::Running)
    }

    /// jmp a: jumps to the value of `a`.
    fn op_jmp(&mut self) -> (r: Result<Status, VmError>)
        requires
            old(self).wf(),
            fetch(old(self)@, old(self)@.ip) == Ok::<u16, VmError>(6),
        ensures
            final(self).wf(),
            (final(self)@, r) == step(old(self)@),
    {
        let a = self.get_value(self.ip + 1)?;
        self.ip = a as usize;
        Ok(Status::Running)
    }

    /// jt a b: jumps to `b` if `a` is nonzero.
    fn op_jt(&mut self) -> (r: Result<Status, VmError>)
        requires
            old(self).wf(),
            fetch(old(self)@, old(self)@.ip) == Ok::<u16, VmError>(7),
        ensures
            final(self).wf(),
            (final(self)@, r) == step(old(self)@),
    {
        let a = self.get_value(self.ip + 1)?;
        let b = self.get_value(self.ip + 2)?;
        if a != 0 {
            self.ip = b as usize;
        } else {
            self.ip = self.ip + 3;
        }
        Ok(Status::Running)
    }

    /// jf a b: jumps to `b` if `a` is zero.
    fn op_jf(&mut self) -> (r: Result<Status, VmError>)
        requires
            old(self).wf(),
            fetch(old(self)@, old(self)@.ip) == Ok::<u16, VmError>(8),
        ensures
            final(self).wf(),
            (final(self)@, r) == step(old(self)@),
    {
        let a = self.get_value(self.ip + 1)?;
        let b = self.get_value(self.ip + 2)?;
        if a == 0 {
            self.ip = b as usize;
        } else {
            self.ip = self.ip + 3;
        }
        Ok(Status::Running)
    }

    /// not a b: `a` is the 15-bit complement of `b`.
    fn op_not(&mut self) -> (r: Result<Status, VmError>)
        requires
            old(self).wf(),
            fetch(old(self)@, old(self)@.ip) == Ok::<u16, VmError>(14),
        ensures
            final(self).wf(),
            (final(self)@, r) == step(old(self)@),
    {
        let a = self.fetch(self.ip + 1)?;
        let b = self.get_value(self.ip + 2)?;
        self.set_value(a, !b & 0x7fff)?;
        self.ip = self.ip + 3;
        Ok(Status::Running)
    }

    /// rmem a b: `a` is the word at memory address `b`.
    fn op_rmem(&mut self) -> (r: Result<Status, VmError>)
        requires
            old(self).wf(),
            fetch(old(self)@, old(self)@.ip) == Ok::<u16, VmError>(15),
        ensures
            final(self).wf(),
            (final(self)@, r) == step(old(self)@),
    {
        let a = self.fetch(self.ip + 1)?;
        let b = self.get_value(self.ip + 2)?;
        let v = self.fetch(b as usize)?;
        self.set_value(a, v)?;
        self.ip = self.ip + 3;
        Ok(Status::Running)
    }

    /// wmem a b: writes `b` to memory address `a`.
    fn op_wmem(&mut self) -> (r: Result<Status, VmError>)
        requires
            old(self).wf(),
            fetch(old(self)@, old(self)@.ip) == Ok::<u16, VmError>(16),
        ensures
            final(self).wf(),
            (final(self)@, r) == step(old(self)@),
    {
        let a = self.get_value(self.ip + 1)? as usize;
        let b = self.get_value(self.ip + 2)?;
        if a >= MEM_SIZE {
            return Err(VmError::InvalidAddress);
        }
        self.mem.set(a, b);
        self.ip = self.ip + 3;
        Ok(Status::Running)
    }

    /// call a: pushes the address of the next instruction and jumps to `a`.
    fn op_call(&mut self) -> (r: Result<Status, VmError>)
        requires
            old(self).wf(),
            fetch(old(self)@, old(self)@.ip) == Ok::<u16, VmError>(17),
        ensures
            final(self).wf(),
            (final(self)@, r) == step(old(self)@),
    {
        let a = self.get_value(self.ip + 1)?;
        let next = (self.ip + 2) as u16;
        self.stack.push(next);
        self.ip = a as usize;
        Ok(Status::Running)
    }

    /// ret: jumps to the address popped from the stack; halts on an empty stack.
    fn op_ret(&mut self) -> (r: Result<Status, VmError>)
        requires
            old(self).wf(),
            fetch(old(self)@, old(self)@.ip) == Ok::<u16, VmError>(18),
        ensures
            final(self).wf(),
            (final(self)@, r) == step(old(self)@),
    {
        match self.stack.pop() {
            None => Ok(Status::Halted),
            Some(addr) => {
                self.ip = addr as usize;
                Ok(Status::Running)
            },
        }
    }

    /// out a: prints the low byte of `a`.
    fn op_out(&mut self) -> (r: Result<Status, VmError>)
        requires
            old(self).wf(),
            fetch(old(self)@, old(self)@.ip) == Ok::<u16, VmError>(19),
        ensures
            final(self).wf(),
            (final(self)@, r) == step(old(self)@),
    {
        let a = self.get_value(self.ip + 1)?;
        self.output.push((a % 256) as u8);
        self.ip = self.ip + 2;
        Ok(Status::Running)
    }

    /// in a: moves the first word of the input queue to `a`, or waits if the queue is empty.
    fn op_in(&mut self) -> (r: Result<Status, VmError>)
        requires
            old(self).wf(),
            fetch(old(self)@, old(self)@.ip) == Ok::<u16, VmError>(20),
        ensures
            final(self).wf(),
            (final(self)@, r) == step(old(self)@),
    {
        if self.input.len() == 0 {
            return Ok(Status::PendingInput);
        }
        let a = self.fetch(self.ip + 1)?;
        let val = self.input[0];
        self.set_value(a, val)?;
        self.input.pop_front();
        self.ip = self.ip + 2;
        Ok(Status::Running)
    }

    /// noop: moves on to the next instruction.
    fn op_noop(&mut self) -> (r: Result<Status, VmError>)
        requires
            old(self).wf(),
            fetch(old(self)@, old(self)@.ip) == Ok::<u16, VmError>(21),
        ensures
            final(self).wf(),
            (final(self)@, r) == step(old(self)@),
    {
        self.ip = self.ip + 1;
        Ok(Status::Running)
    }

    /// Executes the instruction at the instruction pointer. On a halt, a wait
    /// for input or a fault, the machine is left unchanged.
    pub fn exec_op(&mut self) -> (r: Result<Status, VmError>)
        requires
            old(self).wf(),
        ensures
            final(self).wf(),
            (final(self)@, r) == step(old(self)@),
    {
        let op = self.fetch(self.ip)?;
        match op {
            0 => Ok(Status::Halted),
            1 => self.op_set(),
            2 => self.op_push(),
            3 => self.op_pop(),
            4 => self.op_eq(),
            5 => self.op_gt(),
            6 => self.op_jmp(),
            7 => self.op_jt(),
            8 => self.op_jf(),
            9 => self.op_add(),
            10 => self.op_mult(),
            11 => self.op_mod(),
            12 => self.op_and(),
            13 => self.op_or(),
            14 => self.op_not(),
            15 => self.op_rmem(),
            16 => self.op_wmem(),
            17 => self.op_call(),
            18 => self.op_ret(),
            19 => self.op_out(),
            20 => self.op_in(),
            21 => self.op_noop(),
            _ => Err(VmError::InvalidOpcode),
        }
    }

    /// Executes up to `max_steps` instructions, stopping at the first that
    /// halts, waits for input or faults. Returns `Running` if all
    /// `max_steps` instructions ran on.
    pub fn run_for(&mut self, max_steps: u64) -> (r: Result<Status, VmError>)
        requires
            old(self).wf(),
        ensures
            final(self).wf(),
            (final(self)@, r) == run_steps(old(self)@, max_steps as nat),
    {
        let mut i: u64 = 0;
        while i < max_steps
            invariant
                self.wf(),
                i <= max_steps,
                run_steps(self@, (max_steps - i) as nat) == run_steps(old(self)@, max_steps as nat),
            decreases max_steps - i,
        {
            let ghost before = self@;
            let r = self.exec_op();
            proof {
                let n = (max_steps - i) as nat;
                assert(run_steps(before, n) == (if r == Ok::<Status, VmError>(Status::Running) {
                    run_steps(self@, (n - 1) as nat)
                } else {
                    (self@, r)
                }));
            }
            match r {
                Ok(Status::Running) => {},
                _ => {
                    return r;
                },
            }
            i = i + 1;
        }
        Ok(Status::Running)
    }

    /// Runs the program until it halts, waits for input or faults. Returns
    /// `Halted` or `PendingInput`; after `PendingInput`, add input and call
    /// again to go on from the waiting `in` instruction. A program that does
    /// neither within `u64::MAX` instructions gets `Running`.
    pub fn run(&mut self) -> (r: Result<Status, VmError>)
        requires
            old(self).wf(),
        ensures
            final(self).wf(),
            (final(self)@, r) == run_steps(old(self)@, u64::MAX as nat),
    {
        self.run_for(u64::MAX)
    }
}

/// Up to `n` instructions from `s`, stopping early at the first one that
/// halts, waits for input or faults.
pub open spec fn run_steps(s: MachineState, n: nat) -> Outcome
    decreases n,
{
    if n == 0 {
        (s, Ok(Status::Running))
    } else {
        let (t, r) = step(s);
        if r == Ok::<Status, VmError>(Status::Running) {
            run_steps(t, (n - 1) as nat)
        } else {
            (t, r)
        }
    }
}

} // verus!
