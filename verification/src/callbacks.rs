//! Host callbacks handed to libriscv, and the error classes it reports through them.
use vstd::prelude::*;

verus! {

/// Error class code for a general exception.
pub const RISCV_ERROR_TYPE_GENERAL_EXCEPTION: i32 = -1;

/// Error class code for a machine exception.
pub const RISCV_ERROR_TYPE_MACHINE_EXCEPTION: i32 = -2;

/// Error class code for a machine timeout.
pub const RISCV_ERROR_TYPE_MACHINE_TIMEOUT: i32 = -3;

/// The error callback handed to libriscv.
///
/// It holds the handle of a host function `extern "C" fn(*mut c_void, c_int, *const c_char,
/// c_long)`, issued by the code that keeps those functions; 0 stands for "no handler", and a
/// handle that names no function is treated as 0.
#[derive(Debug, Clone, Copy, PartialEq, Eq, Structural)]
pub struct ErrorHandler(pub usize);

impl ErrorHandler {
    /// No handler: libriscv falls back to its own behaviour.
    pub fn clear() -> (h: Self)
        ensures
            h.0 == 0,
    {
        ErrorHandler(0)
    }

    /// The handler with handle `handle`.
    pub fn new(handle: usize) -> (h: Self)
        ensures
            h.0 == handle,
    {
        ErrorHandler(handle)
    }
}

/// The stdout callback handed to libriscv.
///
/// It holds the handle of a host function `extern "C" fn(*mut c_void, *const c_char, c_uint)`,
/// issued by the code that keeps those functions; 0 stands for "no handler", and a handle that
/// names no function is treated as 0.
#[derive(Debug, Clone, Copy, PartialEq, Eq, Structural)]
pub struct StdoutHandler(pub usize);

impl StdoutHandler {
    /// No handler: libriscv falls back to its own behaviour.
    pub fn clear() -> (h: Self)
        ensures
            h.0 == 0,
    {
        StdoutHandler(0)
    }

    /// The handler with handle `handle`.
    pub fn new(handle: usize) -> (h: Self)
        ensures
            h.0 == handle,
    {
        StdoutHandler(handle)
    }
}

/// Known error types reported by libriscv.
#[derive(Debug, Clone, Copy, PartialEq, Eq, Structural)]
pub enum ErrorType {
    GeneralException,
    MachineException,
    MachineTimeout,
    Unknown(i32),
}

/// The class that a raw error code names.
pub open spec fn spec_error_type(code: i32) -> ErrorType {
    if code == RISCV_ERROR_TYPE_GENERAL_EXCEPTION {
        ErrorType::GeneralException
    } else if code == RISCV_ERROR_TYPE_MACHINE_EXCEPTION {
        ErrorType::MachineException
    } else if code == RISCV_ERROR_TYPE_MACHINE_TIMEOUT {
        ErrorType::MachineTimeout
    } else {
        ErrorType::Unknown(code)
    }
}

/// The raw code of an error class.
pub open spec fn spec_error_code(t: ErrorType) -> i32 {
    match t {
        ErrorType::GeneralException => RISCV_ERROR_TYPE_GENERAL_EXCEPTION,
        ErrorType::MachineException => RISCV_ERROR_TYPE_MACHINE_EXCEPTION,
        ErrorType::MachineTimeout => RISCV_ERROR_TYPE_MACHINE_TIMEOUT,
        ErrorType::Unknown(code) => code,
    }
}

impl ErrorType {
    /// Classifies an error code reported by libriscv.
    pub fn from_raw(code: i32) -> (t: Self)
        ensures
            t == spec_error_type(code),
    {
        if code == RISCV_ERROR_TYPE_GENERAL_EXCEPTION {
            ErrorType::GeneralException
        } else if code == RISCV_ERROR_TYPE_MACHINE_EXCEPTION {
            ErrorType::MachineException
        } else if code == RISCV_ERROR_TYPE_MACHINE_TIMEOUT {
            ErrorType::MachineTimeout
        } else {
            ErrorType::Unknown(code)
        }
    }

    /// Return the raw error code reported by libriscv.
    pub fn as_raw(self) -> (code: i32)
        ensures
            code == spec_error_code(self),
    {
        match self {
            ErrorType::GeneralException => RISCV_ERROR_TYPE_GENERAL_EXCEPTION,
            ErrorType::MachineException => RISCV_ERROR_TYPE_MACHINE_EXCEPTION,
            ErrorType::MachineTimeout => RISCV_ERROR_TYPE_MACHINE_TIMEOUT,
            ErrorType::Unknown(code) => code,
        }
    }
}

/// Classifying a code and taking the class's code back gives the code that was classified.
pub proof fn lemma_error_code_round_trip(code: i32)
    ensures
        spec_error_code(spec_error_type(code)) == code,
{
}

/// Taking a class's code and classifying it gives the class back, except for an `Unknown`
/// class that carries one of the three known codes.
pub proof fn lemma_error_type_round_trip(t: ErrorType)
    requires
        t matches ErrorType::Unknown(c) ==> c != RISCV_ERROR_TYPE_GENERAL_EXCEPTION
            && c != RISCV_ERROR_TYPE_MACHINE_EXCEPTION && c != RISCV_ERROR_TYPE_MACHINE_TIMEOUT,
    ensures
        spec_error_type(spec_error_code(t)) == t,
{
}

} // verus!
