//! The 6502 core: per-half-cycle micro-operations driven by a bus pinout,
//! and the opcode decode table.

pub mod machine;
pub mod instructions;

pub use machine::{
    Cpu, CpuPinout, PipelineStatus, ServicedInterrupt, lo_byte, hi_byte,
    FLAG_C, FLAG_Z, FLAG_I, FLAG_D, FLAG_B, FLAG_U, FLAG_V, FLAG_N,
};
