//! A safe wrapper around libriscv, a fast RISC-V sandbox emulator.
//!
//! This crate holds what the wrapper decides: machine options and their validation, syscall
//! numbers and handler tables, the meaning of the values that libriscv hands back, the error
//! type and its messages, and what the handler attributes accept. Each function states its
//! behaviour in its `requires` and `ensures`, and the laws that tie functions together are
//! proof functions beside them.


pub mod attributes;
pub mod callbacks;
pub mod error;
pub mod machine;
pub mod options;
pub mod syscall;
pub mod sys;
pub mod text;

pub use callbacks::{ErrorHandler, ErrorType, StdoutHandler};
pub use error::{c_string_bytes, check_code, is_described, Error, NulError, Result};
pub use machine::{ArenaReallocResult, PageAttributes};
pub use options::{Options, OptionsBuilder, RawOptions};
pub use syscall::{
    SyscallHandler, SyscallHandlerOutput, SyscallId, SyscallRegistry, SyscallRegistryBuilder,
    SyscallResult, SYSCALLS_MAX,
};
