use vstd::prelude::*;

verus! {

/// Number of words in program memory (the 15-bit address space).
pub const MEMORY_SIZE: usize = 32768;

/// Number of machine registers.
pub const REGISTER_COUNT: usize = 8;

/// The first operand word that names a register rather than a literal.
pub const REGISTER_BASE: u16 = 32768;

/// The largest word that is a valid operand (a reference to the last register).
pub const MAX_OPERAND: u16 = 32775;

/// Every fatal condition that stops a running machine.
#[derive(Debug, Clone, Copy, PartialEq, Eq, Structural)]
pub enum VmError {
    /// An operand word above the register range was resolved.
    InvalidOperand,
    /// A value was written through an operand that names no register.
    InvalidDestination,
    /// Memory was read, or an instruction fetched, at an address outside
    /// the address space.
    InvalidAddress,
    /// Memory was written at an address outside the address space.
    InvalidWriteAddress,
    /// `pop` found the stack empty.
    EmptyStack,
    /// The word at the instruction pointer is no opcode.
    InvalidOpcode(u16),
    /// `in` read a character whose code point does not fit in 15 bits.
    InputTooLarge,
    /// `mod` was asked to reduce by zero.
    ZeroModulus,
}

impl VmError {
    /// The process exit status that reports this condition; each condition
    /// has its own.
    pub fn exit_code(&self) -> (r: i32)
        ensures
            r == match *self {
                VmError::InvalidOpcode(_) => 4i32,
                VmError::EmptyStack => 5,
                VmError::InvalidDestination => 6,
                VmError::InvalidAddress => 7,
                VmError::InvalidWriteAddress => 8,
                VmError::InputTooLarge => 9,
                VmError::InvalidOperand => 11,
                VmError::ZeroModulus => 12,
            },
    {
        match self {
            VmError::InvalidOpcode(_) => 4,
            VmError::EmptyStack => 5,
            VmError::InvalidDestination => 6,
            VmError::InvalidAddress => 7,
            VmError::InvalidWriteAddress => 8,
            VmError::InputTooLarge => 9,
            VmError::InvalidOperand => 11,
            VmError::ZeroModulus => 12,
        }
    }
}

/// `w` names a register.
pub open spec fn is_register(w: u16) -> bool {
    REGISTER_BASE <= w <= MAX_OPERAND
}

/// The value that operand word `w` stands for, given the register contents.
pub open spec fn resolve(registers: Seq<u16>, w: u16) -> Result<u16, VmError> {
    if w < REGISTER_BASE {
        Ok(w)
    } else if w <= MAX_OPERAND {
        Ok(registers[w - REGISTER_BASE])
    } else {
        Err(VmError::InvalidOperand)
    }
}

/// The register file after writing `value` through destination word `w`.
pub open spec fn store(registers: Seq<u16>, w: u16, value: u16) -> Result<Seq<u16>, VmError> {
    if is_register(w) {
        Ok(registers.update(w - REGISTER_BASE, value))
    } else {
        Err(VmError::InvalidDestination)
    }
}

/// The word of memory at `addr`, if `addr` lies in the address space.
pub open spec fn read_mem(memory: Seq<u16>, addr: u16) -> Result<u16, VmError> {
    if (addr as int) < MEMORY_SIZE {
        Ok(memory[addr as int])
    } else {
        Err(VmError::InvalidAddress)
    }
}

/// Memory after writing `value` at `addr`, if `addr` lies in the address space.
pub open spec fn write_mem(memory: Seq<u16>, addr: u16, value: u16) -> Result<Seq<u16>, VmError> {
    if (addr as int) < MEMORY_SIZE {
        Ok(memory.update(addr as int, value))
    } else {
        Err(VmError::InvalidWriteAddress)
    }
}

/// `a + b` in the 15-bit ring.
pub open spec fn add_word(a: u16, b: u16) -> u16 {
    ((a + b) % 32768) as u16
}

/// `a * b` in the 15-bit ring.
pub open spec fn mult_word(a: u16, b: u16) -> u16 {
    ((a * b) % 32768) as u16
}

/// The bitwise complement of `a`, kept to its low 15 bits.
pub open spec fn not_word(a: u16) -> u16 {
    (!a) & 0x7fff
}

/// Resolves an operand word: a literal stands for itself, a register
/// reference for the register's content.
pub fn get_value(kind: u16, registers: &Vec<u16>) -> (r: Result<u16, VmError>)
    requires
        registers@.len() == REGISTER_COUNT,
    ensures
        r == resolve(registers@, kind),
{
    if kind < REGISTER_BASE {
        Ok(kind)
    } else if kind <= MAX_OPERAND {
        Ok(registers[(kind - REGISTER_BASE) as usize])
    } else {
        Err(VmError::InvalidOperand)
    }
}

/// Writes `value` into the register that `kind` names.
pub fn set_value(kind: u16, registers: &mut Vec<u16>, value: u16) -> (r: Result<(), VmError>)
    requires
        old(registers)@.len() == REGISTER_COUNT,
    ensures
        match store(old(registers)@, kind, value) {
            Ok(regs) => r is Ok && final(registers)@ == regs,
            Err(e) => r == Err::<(), VmError>(e) && final(registers)@ == old(registers)@,
        },
{
    if REGISTER_BASE <= kind && kind <= MAX_OPERAND {
        registers.set((kind - REGISTER_BASE) as usize, value);
        Ok(())
    } else {
        Err(VmError::InvalidDestination)
    }
}

/// Reads the word of memory at `addr`.
pub fn get_mem(addr: u16, memory: &Vec<u16>) -> (r: Result<u16, VmError>)
    requires
        memory@.len() == MEMORY_SIZE,
    ensures
        r == read_mem(memory@, addr),
{
    if (addr as usize) < MEMORY_SIZE {
        Ok(memory[addr as usize])
    } else {
        Err(VmError::InvalidAddress)
    }
}

/// Writes `value` into memory at `addr`.
pub fn set_mem(addr: u16, memory: &mut Vec<u16>, value: u16) -> (r: Result<(), VmError>)
    requires
        old(memory)@.len() == MEMORY_SIZE,
    ensures
        match write_mem(old(memory)@, addr, value) {
            Ok(mem) => r is Ok && final(memory)@ == mem,
            Err(e) => r == Err::<(), VmError>(e) && final(memory)@ == old(memory)@,
        },
{
    if (addr as usize) < MEMORY_SIZE {
        memory.set(addr as usize, value);
        Ok(())
    } else {
        Err(VmError::InvalidWriteAddress)
    }
}

/// Adds two words modulo 32768, widening so that no carry is lost.
pub fn sum_mod(a: u16, b: u16) -> (r: u16)
    ensures
        r == add_word(a, b),
        r < 32768,
{
    ((a as u32 + b as u32) % 32768) as u16
}

/// Multiplies two words modulo 32768, widening so that the product cannot
/// overflow before it is reduced.
pub fn product_mod(a: u16, b: u16) -> (r: u16)
    ensures
        r == mult_word(a, b),
        r < 32768,
{
    assert((a as u32) * (b as u32) <= 65535u32 * 65535u32) by (nonlinear_arith);
    ((a as u32 * b as u32) % 32768) as u16
}

/// The bitwise complement of a word, masked to 15 bits.
pub fn complement(a: u16) -> (r: u16)
    ensures
        r == not_word(a),
        r < 32768,
{
    let r = !a & 0x7fff;
    assert(!a & 0x7fff < 32768) by (bit_vector);
    r
}

} // verus!
