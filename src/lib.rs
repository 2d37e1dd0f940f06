//! Encoder and decoder for NSL, the binary script format of a step sequencer.
//!
//! A script is a four byte header followed by a flat sequence of instruction
//! frames. Each frame starts with an opcode byte that alone decides how many
//! payload bytes follow it.
pub mod scalar;
pub mod operand;
pub mod wide;
pub mod command;
pub mod script;

pub use scalar::DataValue;
pub use operand::{
    constant, memory_buffer, random, step_density, step_length, step_pitch, step_velocity,
    DataSource,
};
pub use wide::Int16;
pub use command::Commands;
pub use script::NSLScript;
