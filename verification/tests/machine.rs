use libriscv::machine::{require_pointer, transfer_length};
use libriscv::callbacks::ErrorType;
use libriscv::machine::{
    check_page_range, elf_size, guest_length, register_slot, step_outcome, nonzero_address,
};
use libriscv::sys::{
    RISCVPageAttributes, RISCVReallocResult, RISCV_ERROR_TYPE_GENERAL_EXCEPTION,
    RISCV_ERROR_TYPE_MACHINE_EXCEPTION, RISCV_ERROR_TYPE_MACHINE_TIMEOUT, RISCV_PAGE_SIZE,
};
use libriscv::{ArenaReallocResult, Error, ErrorHandler, PageAttributes, StdoutHandler};

#[test]
fn page_size_is_4096() {
    assert_eq!(RISCV_PAGE_SIZE, 4096);
}

#[test]
fn page_ranges_must_be_page_aligned() {
    let destination = 0x7000_0000u64;
    assert!(check_page_range(destination, u64::from(RISCV_PAGE_SIZE)).is_ok());
    assert!(check_page_range(0, 0).is_ok());
    assert!(check_page_range(destination, 3 * 4096).is_ok());
    let error = check_page_range(destination + 1, u64::from(RISCV_PAGE_SIZE)).unwrap_err();
    assert!(matches!(error, Error::UnalignedPageRange { destination: d, size: 4096 } if d == destination + 1));
    assert!(matches!(check_page_range(destination, 100), Err(Error::UnalignedPageRange { .. })));
    assert!(matches!(check_page_range(4095, 4095), Err(Error::UnalignedPageRange { .. })));
}

#[test]
fn page_attributes_round_trip() {
    let attributes = PageAttributes { read: true, write: true, ..PageAttributes::default() };
    let raw = attributes.into_raw();
    assert_eq!(
        raw,
        RISCVPageAttributes { read: 1, write: 1, execute: 0, is_cow: 0, non_owning: 0, dont_fork: 0, user_defined: 0 }
    );
    assert_eq!(PageAttributes::from_raw(raw), attributes);
    let all = PageAttributes {
        read: true,
        write: false,
        execute: true,
        copy_on_write: true,
        non_owning: true,
        dont_fork: false,
        user_defined: 0xab,
    };
    assert_eq!(PageAttributes::from_raw(all.into_raw()), all);
}

#[test]
fn page_records_read_any_nonzero_flag_as_set() {
    let raw = RISCVPageAttributes { read: -5, write: 0, execute: 2, is_cow: 0, non_owning: 7, dont_fork: 1, user_defined: 9 };
    let attributes = PageAttributes::from_raw(raw);
    assert!(attributes.read && !attributes.write && attributes.execute);
    assert!(!attributes.copy_on_write && attributes.non_owning && attributes.dont_fork);
    assert_eq!(attributes.user_defined, 9);
    assert_eq!(
        attributes.into_raw(),
        RISCVPageAttributes { read: 1, write: 0, execute: 1, is_cow: 0, non_owning: 1, dont_fork: 1, user_defined: 9 }
    );
    assert_eq!(PageAttributes::default(), PageAttributes::from_raw(RISCVPageAttributes {
        read: 0, write: 0, execute: 0, is_cow: 0, non_owning: 0, dont_fork: 0, user_defined: 0
    }));
}

#[test]
fn realloc_results() {
    let moved = ArenaReallocResult::from_raw(RISCVReallocResult { ptr: 0x1234, old_size: 32 });
    assert_eq!(moved.address, Some(0x1234));
    assert_eq!(moved.old_size, 32);
    let failed = ArenaReallocResult::from_raw(RISCVReallocResult { ptr: 0, old_size: 64 });
    assert_eq!(failed.address, None);
    assert_eq!(failed.old_size, 64);
}

#[test]
fn lengths_must_fit_a_c_unsigned_int() {
    assert_eq!(guest_length("libriscv_memview", 16).unwrap(), 16);
    assert_eq!(guest_length("libriscv_memview", u32::MAX as usize).unwrap(), u32::MAX);
    match guest_length("read_memory", u32::MAX as usize + 1) {
        Err(Error::LengthTooLarge { op, len }) => {
            assert_eq!(op, "read_memory");
            assert_eq!(len, u32::MAX as usize + 1);
        }
        _ => panic!("expected a length error"),
    }
    assert_eq!(elf_size(1024).unwrap(), 1024);
    assert!(matches!(elf_size(u32::MAX as usize + 7), Err(Error::ElfTooLarge(n)) if n == u32::MAX as usize + 7));
}

#[test]
fn register_indices() {
    assert_eq!(register_slot(0).unwrap(), 0);
    assert_eq!(register_slot(31).unwrap(), 31);
    assert!(matches!(register_slot(32), Err(Error::InvalidRegisterIndex { index: 32, max: 31 })));
    assert!(matches!(register_slot(usize::MAX), Err(Error::InvalidRegisterIndex { max: 31, .. })));
}

#[test]
fn step_values() {
    assert_eq!(step_outcome(5, None).unwrap(), Some(5));
    assert_eq!(step_outcome(0, None).unwrap(), None);
    match step_outcome(-3, Some("Machine timeout")) {
        Err(Error::Library { op, code, message }) => {
            assert_eq!(op, "libriscv_step_one");
            assert_eq!(code, -3);
            assert_eq!(message, Some("Machine timeout"));
        }
        _ => panic!("expected a library error"),
    }
    // A negative value whose low 32 bits are zero reports no failure.
    assert_eq!(step_outcome(-(1i64 << 32), Some("x")).unwrap(), None);
    // The code is the value's low 32 bits.
    match step_outcome(-(1i64 << 32) + 5, None) {
        Err(Error::Library { code, message, .. }) => {
            assert_eq!(code, 5);
            assert_eq!(message, None);
        }
        _ => panic!("expected a library error"),
    }
}

#[test]
fn nonzero_addresses() {
    assert_eq!(nonzero_address(0), None);
    assert_eq!(nonzero_address(0x10078), Some(0x10078));
}

#[test]
fn error_types_round_trip() {
    assert_eq!(ErrorType::from_raw(RISCV_ERROR_TYPE_GENERAL_EXCEPTION), ErrorType::GeneralException);
    assert_eq!(ErrorType::from_raw(RISCV_ERROR_TYPE_MACHINE_EXCEPTION), ErrorType::MachineException);
    assert_eq!(ErrorType::from_raw(RISCV_ERROR_TYPE_MACHINE_TIMEOUT), ErrorType::MachineTimeout);
    assert_eq!(ErrorType::from_raw(-4), ErrorType::Unknown(-4));
    assert_eq!(ErrorType::from_raw(0), ErrorType::Unknown(0));
    for code in [-4, -3, -2, -1, 0, 1, i32::MIN, i32::MAX] {
        assert_eq!(ErrorType::from_raw(code).as_raw(), code);
    }
    assert_eq!(ErrorType::GeneralException.as_raw(), -1);
    assert_eq!(ErrorType::MachineException.as_raw(), -2);
    assert_eq!(ErrorType::MachineTimeout.as_raw(), -3);
    // An unknown class that carries a known code reads back as the known class.
    assert_eq!(ErrorType::from_raw(ErrorType::Unknown(-1).as_raw()), ErrorType::GeneralException);
}

#[test]
fn callback_handlers() {
    assert_eq!(ErrorHandler::clear().0, 0);
    assert_eq!(ErrorHandler::new(0x40).0, 0x40);
    assert_eq!(StdoutHandler::clear().0, 0);
    assert_eq!(StdoutHandler::new(0x80).0, 0x80);
}

#[test]
fn null_pointers_and_empty_transfers() {
    assert!(require_pointer(true, "libriscv_new").is_ok());
    assert!(matches!(require_pointer(false, "libriscv_new"), Err(Error::NullPointer("libriscv_new"))));
    assert_eq!(transfer_length("libriscv_memview", 0).unwrap(), None);
    assert_eq!(transfer_length("libriscv_memview", 8).unwrap(), Some(8));
    match transfer_length("libriscv_writable_memview", u32::MAX as usize + 1) {
        Err(Error::LengthTooLarge { op, len }) => {
            assert_eq!(op, "libriscv_writable_memview");
            assert_eq!(len, u32::MAX as usize + 1);
        }
        _ => panic!("expected a length error"),
    }
}
