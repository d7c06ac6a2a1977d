//! A virtual machine for a 16-bit word architecture with a 15-bit address
//! space, eight registers, an operand stack and character I/O.
//!
//! Operands, memory and arithmetic live in [`operand`], instruction decoding
//! and the execution cycle in [`machine`], program images in [`loader`] and
//! the console's character handling in [`console`]. [`laws`] states and
//! proves properties that span several instructions, and [`door`] solves
//! the coin puzzle met inside the bundled program.

pub mod operand;
pub mod machine;
pub mod loader;
pub mod console;
pub mod laws;
pub mod door;
