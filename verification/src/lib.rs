//! Instruction-set simulator for a 4-bit microprocessor family: a CPU core
//! with a 4-bit ALU, sixteen index registers, a three-level call stack, a
//! read-only program memory unit and a read/write data memory unit.

pub mod intel4001;
pub mod intel4002;
pub mod intel4004;
pub mod laws;
pub mod model;
