//! What the operations are for, stated over all their inputs: conditional
//! control flow, the borrow and carry of the byte arithmetic, instruction
//! lengths, where the background reads its tiles, and the timer rates.

pub mod control;
pub mod arithmetic;
pub mod video;
pub mod timing;
