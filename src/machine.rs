use vstd::prelude::*;
use crate::operand::{
    add_word, complement, get_mem, get_value, mult_word, not_word, product_mod, sum_mod, read_mem, resolve,
    set_mem, set_value, store, write_mem, VmError, MEMORY_SIZE, REGISTER_COUNT,
};

verus! {

/// The largest opcode.
pub const LAST_OPCODE: u16 = 21;

/// One decoded instruction, carrying its raw operand words.
#[derive(Debug, Clone, Copy, PartialEq, Eq, Structural)]
pub enum Instruction {
    Halt,
    SetReg(u16, u16),
    Push(u16),
    Pop(u16),
    Eq(u16, u16, u16),
    Gt(u16, u16, u16),
    Jmp(u16),
    Jt(u16, u16),
    Jf(u16, u16),
    Add(u16, u16, u16),
    Mult(u16, u16, u16),
    Mod(u16, u16, u16),
    And(u16, u16, u16),
    Or(u16, u16, u16),
    Not(u16, u16),
    Rmem(u16, u16),
    Wmem(u16, u16),
    Call(u16),
    Ret,
    Out(u16),
    In(u16),
    Noop,
}

/// What a completed cycle asks of the surroundings.
#[derive(Debug, Clone, Copy, PartialEq, Eq, Structural)]
pub enum Action {
    /// Nothing: run the next cycle.
    Continue,
    /// The `halt` opcode ran: stop with success.
    Halt,
    /// `ret` found the stack empty: the program has finished, with success.
    Finished,
    /// Emit the character with this code point, then run the next cycle.
    Output(u16),
    /// `in` found no pending character: read a line, hand it to the machine
    /// and run the same instruction again.
    NeedInput,
}

/// The mathematical state of a machine.
pub struct MachineState {
    pub memory: Seq<u16>,
    pub registers: Seq<u16>,
    pub stack: Seq<u16>,
    pub ip: int,
    /// Input characters not consumed yet, next one first.
    pub pending: Seq<char>,
}

/// Number of operand words that follow opcode `op`.
pub open spec fn operand_count(op: u16) -> int {
    if op == 0 || op == 18 || op == 21 {
        0
    } else if op == 2 || op == 3 || op == 6 || op == 17 || op == 19 || op == 20 {
        1
    } else if op == 1 || op == 7 || op == 8 || op == 14 || op == 15 || op == 16 {
        2
    } else {
        3
    }
}

/// The instruction that opcode `op` makes with operand words `a`, `b`, `c`
/// (those it does not take are ignored).
pub open spec fn instruction_of(op: u16, a: u16, b: u16, c: u16) -> Instruction {
    if op == 0 { Instruction::Halt }
    else if op == 1 { Instruction::SetReg(a, b) }
    else if op == 2 { Instruction::Push(a) }
    else if op == 3 { Instruction::Pop(a) }
    else if op == 4 { Instruction::Eq(a, b, c) }
    else if op == 5 { Instruction::Gt(a, b, c) }
    else if op == 6 { Instruction::Jmp(a) }
    else if op == 7 { Instruction::Jt(a, b) }
    else if op == 8 { Instruction::Jf(a, b) }
    else if op == 9 { Instruction::Add(a, b, c) }
    else if op == 10 { Instruction::Mult(a, b, c) }
    else if op == 11 { Instruction::Mod(a, b, c) }
    else if op == 12 { Instruction::And(a, b, c) }
    else if op == 13 { Instruction::Or(a, b, c) }
    else if op == 14 { Instruction::Not(a, b) }
    else if op == 15 { Instruction::Rmem(a, b) }
    else if op == 16 { Instruction::Wmem(a, b) }
    else if op == 17 { Instruction::Call(a) }
    else if op == 18 { Instruction::Ret }
    else if op == 19 { Instruction::Out(a) }
    else if op == 20 { Instruction::In(a) }
    else { Instruction::Noop }
}

/// Number of words an instruction occupies, opcode included.
pub open spec fn width(ins: Instruction) -> int {
    match ins {
        Instruction::Halt | Instruction::Ret | Instruction::Noop => 1,
        Instruction::Push(_) | Instruction::Pop(_) | Instruction::Jmp(_) | Instruction::Call(_)
        | Instruction::Out(_) | Instruction::In(_) => 2,
        Instruction::SetReg(..) | Instruction::Jt(..) | Instruction::Jf(..) | Instruction::Not(..)
        | Instruction::Rmem(..) | Instruction::Wmem(..) => 3,
        _ => 4,
    }
}

/// The word of memory at `i`, or zero outside memory.
pub open spec fn word_at(memory: Seq<u16>, i: int) -> u16 {
    if 0 <= i < memory.len() { memory[i] } else { 0 }
}

/// The instruction stored at `ip`.
pub open spec fn decode_spec(memory: Seq<u16>, ip: int) -> Result<Instruction, VmError> {
    if !(0 <= ip < MEMORY_SIZE) || memory.len() != MEMORY_SIZE {
        Err(VmError::InvalidAddress)
    } else if memory[ip] > LAST_OPCODE {
        Err(VmError::InvalidOpcode(memory[ip]))
    } else if ip + operand_count(memory[ip]) >= MEMORY_SIZE {
        Err(VmError::InvalidAddress)
    } else {
        Ok(instruction_of(memory[ip], word_at(memory, ip + 1), word_at(memory, ip + 2), word_at(memory, ip + 3)))
    }
}

/// The result that a three-operand instruction computes from its resolved
/// operands `x` and `y`.
pub open spec fn operate(ins: Instruction, x: u16, y: u16) -> Result<u16, VmError> {
    match ins {
        Instruction::Eq(..) => Ok(if x == y { 1u16 } else { 0u16 }),
        Instruction::Gt(..) => Ok(if x > y { 1u16 } else { 0u16 }),
        Instruction::Add(..) => Ok(add_word(x, y)),
        Instruction::Mult(..) => Ok(mult_word(x, y)),
        Instruction::Mod(..) => if y == 0 { Err(VmError::ZeroModulus) } else { Ok(x % y) },
        Instruction::And(..) => Ok(x & y),
        _ => Ok(x | y),
    }
}

/// Writes `value` through destination `d` and moves the instruction pointer to `next`.
pub open spec fn write_dest(s: MachineState, d: u16, value: u16, next: int) -> Result<(MachineState, Action), VmError> {
    match store(s.registers, d, value) {
        Ok(regs) => Ok((MachineState { registers: regs, ip: next, ..s }, Action::Continue)),
        Err(e) => Err(e),
    }
}

/// Effect of a three-operand instruction: resolve both sources, compute, store.
pub open spec fn binary(s: MachineState, ins: Instruction, d: u16, a: u16, b: u16) -> Result<(MachineState, Action), VmError> {
    match resolve(s.registers, a) {
        Err(e) => Err(e),
        Ok(x) => match resolve(s.registers, b) {
            Err(e) => Err(e),
            Ok(y) => match operate(ins, x, y) {
                Err(e) => Err(e),
                Ok(v) => write_dest(s, d, v, s.ip + 4),
            },
        },
    }
}

/// The machine moved to `target`.
pub open spec fn jump(s: MachineState, target: u16) -> Result<(MachineState, Action), VmError> {
    Ok((MachineState { ip: target as int, ..s }, Action::Continue))
}

/// Effect of a conditional jump: it goes to `b` when `a`'s value is nonzero
/// exactly if `on_nonzero`, and otherwise falls through.
pub open spec fn branch(s: MachineState, a: u16, b: u16, on_nonzero: bool) -> Result<(MachineState, Action), VmError> {
    match resolve(s.registers, a) {
        Err(e) => Err(e),
        Ok(x) => if (x != 0) == on_nonzero {
            match resolve(s.registers, b) {
                Err(e) => Err(e),
                Ok(t) => jump(s, t),
            }
        } else {
            Ok((MachineState { ip: s.ip + 3, ..s }, Action::Continue))
        },
    }
}

/// The state and action after executing `ins` at `s.ip`.
pub open spec fn step_spec(s: MachineState, ins: Instruction) -> Result<(MachineState, Action), VmError> {
    let next = s.ip + width(ins);
    match ins {
        Instruction::Halt => Ok((s, Action::Halt)),
        Instruction::SetReg(d, a) => match resolve(s.registers, a) {
            Err(e) => Err(e),
            Ok(x) => write_dest(s, d, x, next),
        },
        Instruction::Push(a) => match resolve(s.registers, a) {
            Err(e) => Err(e),
            Ok(x) => Ok((MachineState { stack: s.stack.push(x), ip: next, ..s }, Action::Continue)),
        },
        Instruction::Pop(d) => if s.stack.len() == 0 {
            Err(VmError::EmptyStack)
        } else {
            write_dest(MachineState { stack: s.stack.drop_last(), ..s }, d, s.stack.last(), next)
        },
        Instruction::Eq(d, a, b) => binary(s, ins, d, a, b),
        Instruction::Gt(d, a, b) => binary(s, ins, d, a, b),
        Instruction::Jmp(a) => match resolve(s.registers, a) {
            Err(e) => Err(e),
            Ok(t) => jump(s, t),
        },
        Instruction::Jt(a, b) => branch(s, a, b, true),
        Instruction::Jf(a, b) => branch(s, a, b, false),
        Instruction::Add(d, a, b) => binary(s, ins, d, a, b),
        Instruction::Mult(d, a, b) => binary(s, ins, d, a, b),
        Instruction::Mod(d, a, b) => binary(s, ins, d, a, b),
        Instruction::And(d, a, b) => binary(s, ins, d, a, b),
        Instruction::Or(d, a, b) => binary(s, ins, d, a, b),
        Instruction::Not(d, a) => match resolve(s.registers, a) {
            Err(e) => Err(e),
            Ok(x) => write_dest(s, d, not_word(x), next),
        },
        Instruction::Rmem(d, a) => match resolve(s.registers, a) {
            Err(e) => Err(e),
            Ok(addr) => match read_mem(s.memory, addr) {
                Err(e) => Err(e),
                Ok(v) => write_dest(s, d, v, next),
            },
        },
        Instruction::Wmem(a, b) => match resolve(s.registers, a) {
            Err(e) => Err(e),
            Ok(addr) => match resolve(s.registers, b) {
                Err(e) => Err(e),
                Ok(v) => match write_mem(s.memory, addr, v) {
                    Err(e) => Err(e),
                    Ok(mem) => Ok((MachineState { memory: mem, ip: next, ..s }, Action::Continue)),
                },
            },
        },
        Instruction::Call(a) => match resolve(s.registers, a) {
            Err(e) => Err(e),
            Ok(t) => Ok((MachineState { stack: s.stack.push(next as u16), ip: t as int, ..s }, Action::Continue)),
        },
        Instruction::Ret => if s.stack.len() == 0 {
            Ok((s, Action::Finished))
        } else {
            Ok((MachineState { stack: s.stack.drop_last(), ip: s.stack.last() as int, ..s }, Action::Continue))
        },
        Instruction::Out(a) => match resolve(s.registers, a) {
            Err(e) => Err(e),
            Ok(x) => Ok((MachineState { ip: next, ..s }, Action::Output(x))),
        },
        Instruction::In(d) => if s.pending.len() == 0 {
            Ok((s, Action::NeedInput))
        } else if s.pending[0] as u32 >= 32768 {
            Err(VmError::InputTooLarge)
        } else {
            write_dest(MachineState { pending: s.pending.drop_first(), ..s }, d, (s.pending[0] as u32) as u16, next)
        },
        Instruction::Noop => Ok((MachineState { ip: next, ..s }, Action::Continue)),
    }
}

/// One fetch-decode-execute cycle from state `s`.
pub open spec fn cycle(s: MachineState) -> Result<(MachineState, Action), VmError> {
    match decode_spec(s.memory, s.ip) {
        Err(e) => Err(e),
        Ok(ins) => step_spec(s, ins),
    }
}

/// A machine: program memory, registers, stack, instruction pointer and the
/// line of console input being consumed.
pub struct Machine {
    pub memory: Vec<u16>,
    pub registers: Vec<u16>,
    pub stack: Vec<u16>,
    pub ip: usize,
    /// The current input line.
    pub input: Vec<char>,
    /// How much of `input` has been consumed.
    pub input_pos: usize,
}

impl View for Machine {
    type V = MachineState;

    open spec fn view(&self) -> MachineState {
        MachineState {
            memory: self.memory@,
            registers: self.registers@,
            stack: self.stack@,
            ip: self.ip as int,
            pending: self.input@.subrange(self.input_pos as int, self.input@.len() as int),
        }
    }
}

/// Number of operand words that follow opcode `op`.
fn operand_count_of(op: u16) -> (n: usize)
    ensures
        n == operand_count(op),
{
    if op == 0 || op == 18 || op == 21 {
        0
    } else if op == 2 || op == 3 || op == 6 || op == 17 || op == 19 || op == 20 {
        1
    } else if op == 1 || op == 7 || op == 8 || op == 14 || op == 15 || op == 16 {
        2
    } else {
        3
    }
}

/// The word of memory at `i`, or zero outside memory.
fn fetch(memory: &Vec<u16>, i: usize) -> (r: u16)
    ensures
        r == word_at(memory@, i as int),
{
    if i < memory.len() {
        memory[i]
    } else {
        0
    }
}

/// Decodes the instruction stored at `ip`.
pub fn decode(memory: &Vec<u16>, ip: usize) -> (r: Result<Instruction, VmError>)
    ensures
        r == decode_spec(memory@, ip as int),
{
    if ip >= MEMORY_SIZE || memory.len() != MEMORY_SIZE {
        return Err(VmError::InvalidAddress);
    }
    let op = memory[ip];
    if op > LAST_OPCODE {
        return Err(VmError::InvalidOpcode(op));
    }
    if ip + operand_count_of(op) >= MEMORY_SIZE {
        return Err(VmError::InvalidAddress);
    }
    let a = fetch(memory, ip + 1);
    let b = fetch(memory, ip + 2);
    let c = fetch(memory, ip + 3);
    let ins = match op {
        0 => Instruction::Halt,
        1 => Instruction::SetReg(a, b),
        2 => Instruction::Push(a),
        3 => Instruction::Pop(a),
        4 => Instruction::Eq(a, b, c),
        5 => Instruction::Gt(a, b, c),
        6 => Instruction::Jmp(a),
        7 => Instruction::Jt(a, b),
        8 => Instruction::Jf(a, b),
        9 => Instruction::Add(a, b, c),
        10 => Instruction::Mult(a, b, c),
        11 => Instruction::Mod(a, b, c),
        12 => Instruction::And(a, b, c),
        13 => Instruction::Or(a, b, c),
        14 => Instruction::Not(a, b),
        15 => Instruction::Rmem(a, b),
        16 => Instruction::Wmem(a, b),
        17 => Instruction::Call(a),
        18 => Instruction::Ret,
        19 => Instruction::Out(a),
        20 => Instruction::In(a),
        _ => Instruction::Noop,
    };
    Ok(ins)
}

impl Machine {
    /// Memory and registers have their fixed sizes, and the consumed part
    /// of the input line lies within it.
    pub open spec fn wf(&self) -> bool {
        &&& self.memory@.len() == MEMORY_SIZE
        &&& self.registers@.len() == REGISTER_COUNT
        &&& self.input_pos <= self.input@.len()
    }

    /// A machine about to run `memory` from address zero, with zeroed
    /// registers, an empty stack and no pending input.
    pub fn new(memory: Vec<u16>) -> (m: Machine)
        requires
            memory@.len() == MEMORY_SIZE,
        ensures
            m.wf(),
            m@.memory == memory@,
            m@.registers == Seq::new(REGISTER_COUNT as nat, |i: int| 0u16),
            m@.stack == Seq::<u16>::empty(),
            m@.ip == 0,
            m@.pending == Seq::<char>::empty(),
    {
        let registers = vec![0u16; REGISTER_COUNT];
        let m = Machine { memory, registers, stack: Vec::new(), ip: 0, input: Vec::new(), input_pos: 0 };
        assert(m@.registers =~= Seq::new(REGISTER_COUNT as nat, |i: int| 0u16));
        assert(m@.pending =~= Seq::<char>::empty());
        m
    }

    /// Writes `value` through destination `d` and moves on by `w` words.
    fn write_dest_and_advance(&mut self, d: u16, value: u16, w: usize) -> (r: Result<Action, VmError>)
        requires
            old(self).wf(),
            old(self).ip < MEMORY_SIZE,
            w <= 4,
        ensures
            final(self).wf(),
            match write_dest(old(self)@, d, value, old(self)@.ip + w) {
                Ok((s, a)) => r == Ok::<Action, VmError>(a) && final(self)@ == s,
                Err(e) => r == Err::<Action, VmError>(e),
            },
    {
        match set_value(d, &mut self.registers, value) {
            Ok(()) => {
                self.ip = self.ip + w;
                Ok(Action::Continue)
            },
            Err(e) => Err(e),
        }
    }

    /// Executes the three-operand instruction `ins`.
    fn execute_binary(&mut self, ins: Instruction, d: u16, a: u16, b: u16) -> (r: Result<Action, VmError>)
        requires
            old(self).wf(),
            old(self).ip < MEMORY_SIZE,
        ensures
            final(self).wf(),
            match binary(old(self)@, ins, d, a, b) {
                Ok((s, act)) => r == Ok::<Action, VmError>(act) && final(self)@ == s,
                Err(e) => r == Err::<Action, VmError>(e),
            },
    {
        let x = match get_value(a, &self.registers) {
            Ok(x) => x,
            Err(e) => return Err(e),
        };
        let y = match get_value(b, &self.registers) {
            Ok(y) => y,
            Err(e) => return Err(e),
        };
        let v = match ins {
            Instruction::Eq(..) => if x == y { 1u16 } else { 0u16 },
            Instruction::Gt(..) => if x > y { 1u16 } else { 0u16 },
            Instruction::Add(..) => sum_mod(x, y),
            Instruction::Mult(..) => product_mod(x, y),
            Instruction::Mod(..) => {
                if y == 0 {
                    return Err(VmError::ZeroModulus);
                }
                x % y
            },
            Instruction::And(..) => x & y,
            _ => x | y,
        };
        self.write_dest_and_advance(d, v, 4)
    }

    /// Executes a conditional jump.
    fn execute_branch(&mut self, a: u16, b: u16, on_nonzero: bool) -> (r: Result<Action, VmError>)
        requires
            old(self).wf(),
            old(self).ip < MEMORY_SIZE,
        ensures
            final(self).wf(),
            match branch(old(self)@, a, b, on_nonzero) {
                Ok((s, act)) => r == Ok::<Action, VmError>(act) && final(self)@ == s,
                Err(e) => r == Err::<Action, VmError>(e),
            },
    {
        let x = match get_value(a, &self.registers) {
            Ok(x) => x,
            Err(e) => return Err(e),
        };
        if (x != 0) == on_nonzero {
            match get_value(b, &self.registers) {
                Ok(t) => {
                    self.ip = t as usize;
                    Ok(Action::Continue)
                },
                Err(e) => Err(e),
            }
        } else {
            self.ip = self.ip + 3;
            Ok(Action::Continue)
        }
    }

    /// Executes `ins` as the instruction at the current address.
    pub fn execute(&mut self, ins: Instruction) -> (r: Result<Action, VmError>)
        requires
            old(self).wf(),
            old(self).ip < MEMORY_SIZE,
        ensures
            final(self).wf(),
            match step_spec(old(self)@, ins) {
                Ok((s, a)) => r == Ok::<Action, VmError>(a) && final(self)@ == s,
                Err(e) => r == Err::<Action, VmError>(e),
            },
    {
        match ins {
            Instruction::Halt => Ok(Action::Halt),
            Instruction::SetReg(d, a) => match get_value(a, &self.registers) {
                Ok(x) => self.write_dest_and_advance(d, x, 3),
                Err(e) => Err(e),
            },
            Instruction::Push(a) => match get_value(a, &self.registers) {
                Ok(x) => {
                    self.stack.push(x);
                    self.ip = self.ip + 2;
                    Ok(Action::Continue)
                },
                Err(e) => Err(e),
            },
            Instruction::Pop(d) => match self.stack.pop() {
                Some(x) => {
                    self.write_dest_and_advance(d, x, 2)
                },
                None => Err(VmError::EmptyStack),
            },
            Instruction::Eq(d, a, b) => self.execute_binary(ins, d, a, b),
            Instruction::Gt(d, a, b) => self.execute_binary(ins, d, a, b),
            Instruction::Jmp(a) => match get_value(a, &self.registers) {
                Ok(t) => {
                    self.ip = t as usize;
                    Ok(Action::Continue)
                },
                Err(e) => Err(e),
            },
            Instruction::Jt(a, b) => self.execute_branch(a, b, true),
            Instruction::Jf(a, b) => self.execute_branch(a, b, false),
            Instruction::Add(d, a, b) => self.execute_binary(ins, d, a, b),
            Instruction::Mult(d, a, b) => self.execute_binary(ins, d, a, b),
            Instruction::Mod(d, a, b) => self.execute_binary(ins, d, a, b),
            Instruction::And(d, a, b) => self.execute_binary(ins, d, a, b),
            Instruction::Or(d, a, b) => self.execute_binary(ins, d, a, b),
            Instruction::Not(d, a) => match get_value(a, &self.registers) {
                Ok(x) => self.write_dest_and_advance(d, complement(x), 3),
                Err(e) => Err(e),
            },
            Instruction::Rmem(d, a) => {
                let addr = match get_value(a, &self.registers) {
                    Ok(addr) => addr,
                    Err(e) => return Err(e),
                };
                match get_mem(addr, &self.memory) {
                    Ok(v) => self.write_dest_and_advance(d, v, 3),
                    Err(e) => Err(e),
                }
            },
            Instruction::Wmem(a, b) => {
                let addr = match get_value(a, &self.registers) {
                    Ok(addr) => addr,
                    Err(e) => return Err(e),
                };
                let v = match get_value(b, &self.registers) {
                    Ok(v) => v,
                    Err(e) => return Err(e),
                };
                match set_mem(addr, &mut self.memory, v) {
                    Ok(()) => {
                        self.ip = self.ip + 3;
                        Ok(Action::Continue)
                    },
                    Err(e) => Err(e),
                }
            },
            Instruction::Call(a) => match get_value(a, &self.registers) {
                Ok(t) => {
                    self.stack.push((self.ip + 2) as u16);
                    self.ip = t as usize;
                    Ok(Action::Continue)
                },
                Err(e) => Err(e),
            },
            Instruction::Ret => match self.stack.pop() {
                Some(addr) => {
                    self.ip = addr as usize;
                    Ok(Action::Continue)
                },
                None => Ok(Action::Finished),
            },
            Instruction::Out(a) => match get_value(a, &self.registers) {
                Ok(x) => {
                    self.ip = self.ip + 2;
                    Ok(Action::Output(x))
                },
                Err(e) => Err(e),
            },
            Instruction::In(d) => {
                if self.input_pos >= self.input.len() {
                    return Ok(Action::NeedInput);
                }
                let c = self.input[self.input_pos];
                let code = c as u32;
                if code >= 32768 {
                    return Err(VmError::InputTooLarge);
                }
                self.input_pos = self.input_pos + 1;
                proof {
                    assert(self@.pending =~= old(self)@.pending.drop_first());
                }
                self.write_dest_and_advance(d, code as u16, 2)
            },
            Instruction::Noop => {
                self.ip = self.ip + 1;
                Ok(Action::Continue)
            },
        }
    }

    /// Runs one fetch-decode-execute cycle.
    pub fn step(&mut self) -> (r: Result<Action, VmError>)
        requires
            old(self).wf(),
        ensures
            final(self).wf(),
            match cycle(old(self)@) {
                Ok((s, a)) => r == Ok::<Action, VmError>(a) && final(self)@ == s,
                Err(e) => r == Err::<Action, VmError>(e),
            },
    {
        match decode(&self.memory, self.ip) {
            Ok(ins) => self.execute(ins),
            Err(e) => Err(e),
        }
    }
}

} // verus!
