//! A verified instruction decoder for the 8086 register/memory `mov` family.
//!
//! The decoder consumes a finite byte buffer through a forward-only cursor,
//! classifies each instruction's opcode byte, resolves the addressing mode
//! from the mode byte, consumes the declared number of displacement bytes,
//! and renders each decoded instruction as canonical assembly text
//! (`mov dst, src`). Every byte pattern has a defined outcome: either a
//! decoded instruction or an explicit decode error.

pub mod cursor;
pub mod decode;
pub mod fields;
pub mod inst;
pub mod laws;
pub mod text;
