//! The error type of the library, how a libriscv status code becomes one, and its message text.
use vstd::prelude::*;
use vstd::utf8::encode_utf8;
use crate::text::{
    alternate_hex, decimal, push_alternate_hex, push_decimal, push_signed_decimal,
    signed_decimal,
};

verus! {

/// A string that could not become a C string because it holds a NUL byte.
///
/// `position` is the index of the first NUL byte in `bytes`, the bytes that were given.
#[derive(Debug)]
pub struct NulError {
    position: usize,
    bytes: Vec<u8>,
}

impl View for NulError {
    /// The position of the first NUL byte, and all the bytes.
    type V = (nat, Seq<u8>);

    closed spec fn view(&self) -> (nat, Seq<u8>) {
        (self.position as nat, self.bytes@)
    }
}

/// Index of the first NUL byte of `bytes` at or after `start`, if there is one.
pub open spec fn first_nul_from(bytes: Seq<u8>, start: nat) -> Option<nat>
    decreases bytes.len() - start,
{
    if start >= bytes.len() {
        None
    } else if bytes[start as int] == 0 {
        Some(start)
    } else {
        first_nul_from(bytes, start + 1)
    }
}

/// Index of the first NUL byte of `bytes`, if there is one.
pub open spec fn first_nul(bytes: Seq<u8>) -> Option<nat> {
    first_nul_from(bytes, 0)
}

/// The first NUL byte is a NUL byte, and no byte before it is one; there is none exactly
/// when no byte is NUL.
pub proof fn lemma_first_nul(bytes: Seq<u8>)
    ensures
        match first_nul(bytes) {
            Some(p) => p < bytes.len() && bytes[p as int] == 0 && forall|j: int| 0 <= j < p ==> bytes[j] != 0,
            None => forall|j: int| 0 <= j < bytes.len() ==> bytes[j] != 0,
        },
{
    lemma_first_nul_from(bytes, 0);
}

proof fn lemma_first_nul_from(bytes: Seq<u8>, start: nat)
    ensures
        match first_nul_from(bytes, start) {
            Some(p) => start <= p < bytes.len() && bytes[p as int] == 0 && forall|j: int| start <= j < p ==> bytes[j] != 0,
            None => forall|j: int| start <= j < bytes.len() ==> bytes[j] != 0,
        },
    decreases bytes.len() - start,
{
    if start < bytes.len() && bytes[start as int] != 0 {
        lemma_first_nul_from(bytes, start + 1);
    }
}

/// Finds the first NUL byte of `bytes`.
pub fn find_nul(bytes: &[u8]) -> (r: Option<usize>)
    ensures
        match r {
            Some(i) => first_nul(bytes@) == Some(i as nat),
            None => first_nul(bytes@) is None,
        },
{
    let mut i: usize = 0;
    while i < bytes.len()
        invariant
            i <= bytes@.len(),
            first_nul(bytes@) == first_nul_from(bytes@, i as nat),
        decreases bytes@.len() - i,
    {
        if bytes[i] == 0 {
            return Some(i);
        }
        i = i + 1;
    }
    None
}

impl NulError {
    /// The error for `bytes`, which hold a NUL byte first at `position`.
    pub(crate) fn new(position: usize, bytes: Vec<u8>) -> (e: NulError)
        requires
            first_nul(bytes@) == Some(position as nat),
        ensures
            e@ == (position as nat, bytes@),
    {
        NulError { position, bytes }
    }

    /// Index of the NUL byte that caused the error.
    pub fn nul_position(&self) -> (p: usize)
        ensures
            p == self@.0,
    {
        self.position
    }

    /// The bytes that held the NUL byte.
    pub fn as_bytes(&self) -> (b: &[u8])
        ensures
            b@ == self@.1,
    {
        self.bytes.as_slice()
    }

    /// Gives the bytes back.
    pub fn into_vec(self) -> (b: Vec<u8>)
        ensures
            b@ == self@.1,
    {
        self.bytes
    }
}

/// The bytes of a C string holding `s` (without its terminating NUL), or, where `s` holds a
/// NUL byte, the error that names its first one.
pub fn c_string_bytes(s: &str) -> (r: Result<Vec<u8>>)
    ensures
        match first_nul(encode_utf8(s@)) {
            None => r matches Ok(b) && b@ == encode_utf8(s@),
            Some(p) => r matches Err(Error::NulError(e)) && e@ == (p, encode_utf8(s@)),
        },
{
    let bytes = s.as_bytes();
    match find_nul(bytes) {
        Some(position) => Err(Error::NulError(NulError::new(position, vstd::slice::slice_to_vec(bytes)))),
        None => Ok(vstd::slice::slice_to_vec(bytes)),
    }
}

/// Errors that the library reports.
#[derive(Debug)]
pub enum Error {
    ArgsTooLarge(usize),
    ElfTooLarge(usize),
    InvalidRegisterIndex { index: usize, max: usize },
    InvalidSyscallIndex { index: usize, max: usize },
    LengthTooLarge { op: &'static str, len: usize },
    UnalignedPageRange { destination: u64, size: u64 },
    Library { op: &'static str, code: i32, message: Option<&'static str> },
    NonUtf8Path,
    NullPointer(&'static str),
    NulError(NulError),
}

/// Result of the library's operations.
pub type Result<T> = core::result::Result<T, Error>;

impl From<NulError> for Error {
    fn from(value: NulError) -> (e: Self) {
        Error::NulError(value)
    }
}

impl vstd::std_specs::convert::FromSpecImpl<NulError> for Error {
    open spec fn obeys_from_spec() -> bool {
        true
    }

    open spec fn from_spec(v: NulError) -> Self {
        Error::NulError(v)
    }
}

/// The message attached to a failed status code: only negative codes carry one, and it is
/// the library's description of that code, where it has one.
pub open spec fn spec_error_message(code: i32, described: Option<&'static str>) -> Option<&'static str> {
    if code >= 0 {
        None
    } else {
        described
    }
}

/// Whether libriscv is asked to describe status `code`: only a negative code has a description.
pub fn is_described(code: i32) -> (r: bool)
    ensures
        r == (code < 0),
{
    code < 0
}

/// The message for status `code`, given `described`, libriscv's own description of it.
pub fn error_message(code: i32, described: Option<&'static str>) -> (m: Option<&'static str>)
    ensures
        m == spec_error_message(code, described),
{
    if code >= 0 {
        None
    } else {
        described
    }
}

/// Turns the status code of a libriscv call into a result: 0 is success, anything else an
/// error that names the call, the code and (for a negative code) its description.
pub fn check_code(op: &'static str, code: i32, described: Option<&'static str>) -> (r: Result<()>)
    ensures
        code == 0 <==> r is Ok,
        code != 0 ==> r == Err::<(), Error>(
            Error::Library { op, code, message: spec_error_message(code, described) },
        ),
{
    if code == 0 {
        Ok(())
    } else {
        Err(Error::Library { op, code, message: error_message(code, described) })
    }
}

/// The text that `Display` prints for an error.
pub open spec fn error_text(e: Error) -> Seq<char> {
    match e {
        Error::ArgsTooLarge(len) => "too many arguments: "@ + decimal(len as nat),
        Error::ElfTooLarge(len) => "ELF size "@ + decimal(len as nat) + " exceeds u32::MAX"@,
        Error::InvalidRegisterIndex { index, max } => "register index "@ + decimal(index as nat)
            + " out of range (max "@ + decimal(max as nat) + ")"@,
        Error::InvalidSyscallIndex { index, max } => "syscall index "@ + decimal(index as nat)
            + " out of range (max "@ + decimal(max as nat) + ")"@,
        Error::LengthTooLarge { op, len } => op@ + " length "@ + decimal(len as nat)
            + " exceeds u32::MAX"@,
        Error::UnalignedPageRange { destination, size } => "guest page range address "@
            + alternate_hex(destination as nat) + " and size "@ + alternate_hex(size as nat)
            + " must be 4096-byte aligned"@,
        Error::Library { op, code, message } => match message {
            Some(m) => op@ + " failed ("@ + signed_decimal(code as int) + "): "@ + m@,
            None => op@ + " failed ("@ + signed_decimal(code as int) + ")"@,
        },
        Error::NonUtf8Path => "path contains invalid UTF-8"@,
        Error::NullPointer(op) => op@ + " returned a null pointer"@,
        Error::NulError(err) => "nul byte found in provided data at position: "@ + decimal(err@.0),
    }
}

impl Error {
    /// The text that `Display` prints for this error.
    pub fn to_display_string(&self) -> (s: String)
        ensures
            s@ == error_text(*self),
    {
        let mut s = String::new();
        match self {
            Error::ArgsTooLarge(len) => {
                s.append("too many arguments: ");
                push_decimal(&mut s, *len as u64);
            },
            Error::ElfTooLarge(len) => {
                s.append("ELF size ");
                push_decimal(&mut s, *len as u64);
                s.append(" exceeds u32::MAX");
            },
            Error::InvalidRegisterIndex { index, max } => {
                s.append("register index ");
                push_decimal(&mut s, *index as u64);
                s.append(" out of range (max ");
                push_decimal(&mut s, *max as u64);
                s.append(")");
            },
            Error::InvalidSyscallIndex { index, max } => {
                s.append("syscall index ");
                push_decimal(&mut s, *index as u64);
                s.append(" out of range (max ");
                push_decimal(&mut s, *max as u64);
                s.append(")");
            },
            Error::LengthTooLarge { op, len } => {
                s.append(op);
                s.append(" length ");
                push_decimal(&mut s, *len as u64);
                s.append(" exceeds u32::MAX");
            },
            Error::UnalignedPageRange { destination, size } => {
                s.append("guest page range address ");
                push_alternate_hex(&mut s, *destination);
                s.append(" and size ");
                push_alternate_hex(&mut s, *size);
                s.append(" must be 4096-byte aligned");
            },
            Error::Library { op, code, message } => {
                s.append(op);
                s.append(" failed (");
                push_signed_decimal(&mut s, *code as i64);
                match message {
                    Some(m) => {
                        s.append("): ");
                        s.append(m);
                    },
                    None => {
                        s.append(")");
                    },
                }
            },
            Error::NonUtf8Path => {
                s.append("path contains invalid UTF-8");
            },
            Error::NullPointer(op) => {
                s.append(op);
                s.append(" returned a null pointer");
            },
            Error::NulError(err) => {
                s.append("nul byte found in provided data at position: ");
                push_decimal(&mut s, err.nul_position() as u64);
            },
        }
        assert(s@ =~= error_text(*self));
        s
    }
}

} // verus!
