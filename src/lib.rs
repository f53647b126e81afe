pub mod constants;
pub mod error;
pub mod instruction;
pub mod register;
pub mod semantics;
pub mod storage;
pub mod syscall;
pub mod emulator;
pub mod laws;
