//! A user-space simulator core for the 32-bit RISC-V base integer
//! architecture with the multiply/divide and CSR extensions.

pub mod alu;
pub mod decoder;
pub mod executor;
pub mod system;
