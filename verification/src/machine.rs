//! What a machine operation decides around its libriscv call: which arguments libriscv can
//! take, and what the values that it hands back mean.
use vstd::prelude::*;
use crate::error::{check_code, spec_error_message, Error, Result};

verus! {

/// Size of a guest page in bytes.
pub const RISCV_PAGE_SIZE: u32 = 4096;

/// Number of integer (and of floating-point) registers.
pub const REGISTER_COUNT: usize = 32;

/// Page attributes in libriscv's own layout: each flag is a C `int`, 0 for false.
#[derive(Debug, Clone, Copy, PartialEq, Eq, Structural)]
pub struct RISCVPageAttributes {
    pub read: i32,
    pub write: i32,
    pub execute: i32,
    pub is_cow: i32,
    pub non_owning: i32,
    pub dont_fork: i32,
    pub user_defined: u8,
}

/// Attributes of a guest page.
#[derive(Debug, Clone, Copy, PartialEq, Eq, Structural)]
pub struct PageAttributes {
    pub read: bool,
    pub write: bool,
    pub execute: bool,
    pub copy_on_write: bool,
    pub non_owning: bool,
    pub dont_fork: bool,
    pub user_defined: u8,
}

/// The C `int` that stands for a flag.
pub open spec fn flag_int(b: bool) -> i32 {
    if b {
        1
    } else {
        0
    }
}

fn flag_to_int(b: bool) -> (v: i32)
    ensures
        v == flag_int(b),
{
    if b {
        1
    } else {
        0
    }
}

/// The attributes that a page record in libriscv's layout stands for.
pub open spec fn spec_attributes_from_raw(raw: RISCVPageAttributes) -> PageAttributes {
    PageAttributes {
        read: raw.read != 0,
        write: raw.write != 0,
        execute: raw.execute != 0,
        copy_on_write: raw.is_cow != 0,
        non_owning: raw.non_owning != 0,
        dont_fork: raw.dont_fork != 0,
        user_defined: raw.user_defined,
    }
}

/// The page record in libriscv's layout for some attributes.
pub open spec fn spec_attributes_into_raw(a: PageAttributes) -> RISCVPageAttributes {
    RISCVPageAttributes {
        read: flag_int(a.read),
        write: flag_int(a.write),
        execute: flag_int(a.execute),
        is_cow: flag_int(a.copy_on_write),
        non_owning: flag_int(a.non_owning),
        dont_fork: flag_int(a.dont_fork),
        user_defined: a.user_defined,
    }
}

impl Default for PageAttributes {
    /// No access, no flags, user value 0.
    fn default() -> (a: Self)
        ensures
            a == (PageAttributes {
                read: false,
                write: false,
                execute: false,
                copy_on_write: false,
                non_owning: false,
                dont_fork: false,
                user_defined: 0,
            }),
    {
        PageAttributes {
            read: false,
            write: false,
            execute: false,
            copy_on_write: false,
            non_owning: false,
            dont_fork: false,
            user_defined: 0,
        }
    }
}

impl PageAttributes {
    /// Reads a page record of libriscv: any nonzero flag is set.
    pub fn from_raw(raw: RISCVPageAttributes) -> (a: Self)
        ensures
            a == spec_attributes_from_raw(raw),
    {
        PageAttributes {
            read: raw.read != 0,
            write: raw.write != 0,
            execute: raw.execute != 0,
            copy_on_write: raw.is_cow != 0,
            non_owning: raw.non_owning != 0,
            dont_fork: raw.dont_fork != 0,
            user_defined: raw.user_defined,
        }
    }

    /// Writes the page record that libriscv takes: each flag as 1 or 0.
    pub fn into_raw(self) -> (raw: RISCVPageAttributes)
        ensures
            raw == spec_attributes_into_raw(self),
    {
        RISCVPageAttributes {
            read: flag_to_int(self.read),
            write: flag_to_int(self.write),
            execute: flag_to_int(self.execute),
            is_cow: flag_to_int(self.copy_on_write),
            non_owning: flag_to_int(self.non_owning),
            dont_fork: flag_to_int(self.dont_fork),
            user_defined: self.user_defined,
        }
    }
}

/// Each flag of the attributes goes to the record field of the same meaning, as 1 or 0, and
/// each record field is read back into that same flag, set where it is nonzero.
pub proof fn lemma_page_flags_by_name(a: PageAttributes, raw: RISCVPageAttributes)
    ensures
        ({
            let r = spec_attributes_into_raw(a);
            &&& r.read == (if a.read { 1i32 } else { 0i32 })
            &&& r.write == (if a.write { 1i32 } else { 0i32 })
            &&& r.execute == (if a.execute { 1i32 } else { 0i32 })
            &&& r.is_cow == (if a.copy_on_write { 1i32 } else { 0i32 })
            &&& r.non_owning == (if a.non_owning { 1i32 } else { 0i32 })
            &&& r.dont_fork == (if a.dont_fork { 1i32 } else { 0i32 })
            &&& r.user_defined == a.user_defined
        }),
        ({
            let b = spec_attributes_from_raw(raw);
            &&& b.read == (raw.read != 0)
            &&& b.write == (raw.write != 0)
            &&& b.execute == (raw.execute != 0)
            &&& b.copy_on_write == (raw.is_cow != 0)
            &&& b.non_owning == (raw.non_owning != 0)
            &&& b.dont_fork == (raw.dont_fork != 0)
            &&& b.user_defined == raw.user_defined
        }),
{
}

/// Writing attributes into libriscv's layout and reading them back gives the same attributes.
pub proof fn lemma_page_attributes_round_trip(a: PageAttributes)
    ensures
        spec_attributes_from_raw(spec_attributes_into_raw(a)) == a,
{
}

/// Reading a page record and writing it back keeps every flag's truth and the user value,
/// and turns each set flag into 1.
pub proof fn lemma_page_record_normalised(raw: RISCVPageAttributes)
    ensures
        ({
            let back = spec_attributes_into_raw(spec_attributes_from_raw(raw));
            &&& back.read == (if raw.read != 0 { 1i32 } else { 0i32 })
            &&& back.write == (if raw.write != 0 { 1i32 } else { 0i32 })
            &&& back.execute == (if raw.execute != 0 { 1i32 } else { 0i32 })
            &&& back.is_cow == (if raw.is_cow != 0 { 1i32 } else { 0i32 })
            &&& back.non_owning == (if raw.non_owning != 0 { 1i32 } else { 0i32 })
            &&& back.dont_fork == (if raw.dont_fork != 0 { 1i32 } else { 0i32 })
            &&& back.user_defined == raw.user_defined
            &&& spec_attributes_from_raw(back) == spec_attributes_from_raw(raw)
        }),
{
}

/// The result of an arena reallocation in libriscv's layout: address 0 means failure.
#[derive(Debug, Clone, Copy, PartialEq, Eq, Structural)]
pub struct RISCVReallocResult {
    pub ptr: u64,
    pub old_size: u64,
}

/// The result of an arena reallocation.
///
/// `address` is `None` where the reallocation failed; it is never `Some(0)` when produced by
/// [`ArenaReallocResult::from_raw`].
#[derive(Debug, Clone, Copy, PartialEq, Eq, Structural)]
pub struct ArenaReallocResult {
    pub address: Option<u64>,
    pub old_size: u64,
}

impl ArenaReallocResult {
    /// Reads libriscv's reallocation result.
    pub fn from_raw(raw: RISCVReallocResult) -> (r: Self)
        ensures
            r.address == (if raw.ptr == 0 { None } else { Some(raw.ptr) }),
            r.old_size == raw.old_size,
    {
        ArenaReallocResult { address: nonzero_address(raw.ptr), old_size: raw.old_size }
    }
}

/// An address that libriscv reports, where 0 means "none".
pub fn nonzero_address(addr: u64) -> (r: Option<u64>)
    ensures
        r == (if addr == 0 { None } else { Some(addr) }),
{
    if addr == 0 {
        None
    } else {
        Some(addr)
    }
}

/// A pointer that libriscv returned must not be null; `op` names the call in the error.
pub fn require_pointer(present: bool, op: &'static str) -> (r: Result<()>)
    ensures
        present ==> r is Ok,
        !present ==> r == Err::<(), Error>(Error::NullPointer(op)),
{
    if present {
        Ok(())
    } else {
        Err(Error::NullPointer(op))
    }
}

/// Whether a copy between host and guest memory of `len` bytes goes to libriscv: an empty
/// copy does nothing (`None`); otherwise the length as libriscv takes it, as [`guest_length`]
/// checks it for the view that `op` names.
pub fn transfer_length(op: &'static str, len: usize) -> (r: Result<Option<u32>>)
    ensures
        len == 0 ==> r == Ok::<Option<u32>, Error>(None),
        0 < len <= u32::MAX ==> r == Ok::<Option<u32>, Error>(Some(len as u32)),
        len > u32::MAX ==> r == Err::<Option<u32>, Error>(Error::LengthTooLarge { op, len }),
{
    if len == 0 {
        return Ok(None);
    }
    let checked = guest_length(op, len)?;
    Ok(Some(checked))
}

/// The size of an ELF image as libriscv takes it: at most `u32::MAX` bytes.
pub fn elf_size(len: usize) -> (r: Result<u32>)
    ensures
        len <= u32::MAX ==> r == Ok::<u32, Error>(len as u32),
        len > u32::MAX ==> r == Err::<u32, Error>(Error::ElfTooLarge(len)),
{
    if len > u32::MAX as usize {
        Err(Error::ElfTooLarge(len))
    } else {
        Ok(len as u32)
    }
}

/// The length of a guest memory transfer as libriscv takes it: at most `u32::MAX` bytes.
/// `op` names the operation in the error.
pub fn guest_length(op: &'static str, len: usize) -> (r: Result<u32>)
    ensures
        len <= u32::MAX ==> r == Ok::<u32, Error>(len as u32),
        len > u32::MAX ==> r == Err::<u32, Error>(Error::LengthTooLarge { op, len }),
{
    if len > u32::MAX as usize {
        Err(Error::LengthTooLarge { op, len })
    } else {
        Ok(len as u32)
    }
}

/// Whether `n` is a whole number of pages.
pub open spec fn page_aligned(n: u64) -> bool {
    n % (RISCV_PAGE_SIZE as u64) == 0
}

/// Non-owned memory can be inserted only as whole pages at a page boundary.
pub fn check_page_range(destination: u64, size: u64) -> (r: Result<()>)
    ensures
        page_aligned(destination) && page_aligned(size) ==> r is Ok,
        !(page_aligned(destination) && page_aligned(size)) ==> r == Err::<(), Error>(
            Error::UnalignedPageRange { destination, size },
        ),
{
    let page_size: u64 = RISCV_PAGE_SIZE as u64;
    let page_mask: u64 = page_size - 1;
    assert(((destination | size) & 4095u64 == 0) <==> (destination % 4096 == 0 && size % 4096 == 0))
        by (bit_vector);
    if (destination | size) & page_mask != 0 {
        return Err(Error::UnalignedPageRange { destination, size });
    }
    Ok(())
}

/// Checks a register index: there are [`REGISTER_COUNT`] registers of each kind.
pub fn register_slot(index: usize) -> (r: Result<usize>)
    ensures
        index < REGISTER_COUNT ==> r == Ok::<usize, Error>(index),
        index >= REGISTER_COUNT ==> r == Err::<usize, Error>(
            Error::InvalidRegisterIndex { index, max: (REGISTER_COUNT - 1) as usize },
        ),
{
    if index >= REGISTER_COUNT {
        return Err(Error::InvalidRegisterIndex { index, max: REGISTER_COUNT - 1 });
    }
    Ok(index)
}

/// What a single step reported: a negative value is a failure status (in its low 32 bits),
/// a positive value the instruction count, 0 nothing.
pub open spec fn spec_step_outcome(value: i64, described: Option<&'static str>) -> Result<Option<u64>> {
    if value < 0 && (value as i32) != 0 {
        Err(
            Error::Library {
                op: "libriscv_step_one",
                code: value as i32,
                message: spec_error_message(value as i32, described),
            },
        )
    } else if value > 0 {
        Ok(Some(value as u64))
    } else {
        Ok(None)
    }
}

/// Interprets the value that stepping one instruction returned; `described` is libriscv's
/// description of the status in its low 32 bits.
pub fn step_outcome(value: i64, described: Option<&'static str>) -> (r: Result<Option<u64>>)
    ensures
        r == spec_step_outcome(value, described),
{
    if value < 0 {
        check_code("libriscv_step_one", value as i32, described)?;
    }
    if value > 0 {
        Ok(Some(value as u64))
    } else {
        Ok(None)
    }
}

/// What a single step reports: a negative value whose low 32 bits are not zero is a failure
/// of `libriscv_step_one` with those bits as its code (described where the code is
/// negative); a positive value is the value itself; anything else is a plain stop.
pub proof fn lemma_step_outcome_cases(value: i64, described: Option<&'static str>)
    ensures
        value < 0 && (value as i32) != 0 ==> spec_step_outcome(value, described) == Err::<Option<u64>, Error>(
            Error::Library {
                op: "libriscv_step_one",
                code: value as i32,
                message: if (value as i32) < 0 { described } else { None },
            },
        ),
        value > 0 ==> spec_step_outcome(value, described) == Ok::<Option<u64>, Error>(Some(value as u64)),
        spec_step_outcome(value, described) == Ok::<Option<u64>, Error>(None) <==> (value == 0 || (value < 0 && (value as i32) == 0)),
        spec_step_outcome(value, described) is Err <==> (value < 0 && (value as i32) != 0),
{
}

} // verus!
