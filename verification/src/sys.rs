//! The plain data of libriscv's C interface: constants and records without pointers.

pub use crate::callbacks::{
    RISCV_ERROR_TYPE_GENERAL_EXCEPTION, RISCV_ERROR_TYPE_MACHINE_EXCEPTION,
    RISCV_ERROR_TYPE_MACHINE_TIMEOUT,
};
pub use crate::machine::{RISCVPageAttributes, RISCVReallocResult, RISCV_PAGE_SIZE};
