//! The execution units. Each function performs one instruction on the
//! register file and the memory bus and returns the address of the next
//! instruction.

pub mod operands;
pub mod arithmetic;
pub mod bit;
pub mod logical;
pub mod rotate;
pub mod shift;
pub mod conditional;
pub mod stack;
pub mod misc;
pub mod load;
