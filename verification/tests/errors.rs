use libriscv::error::error_message;
use libriscv::{check_code, Error, Options};

#[test]
fn zero_status_is_success() {
    assert!(check_code("libriscv_run", 0, Some("unused")).is_ok());
}

#[test]
fn negative_status_carries_the_description() {
    match check_code("libriscv_run", -3, Some("Machine timeout")) {
        Err(Error::Library { op, code, message }) => {
            assert_eq!(op, "libriscv_run");
            assert_eq!(code, -3);
            assert_eq!(message, Some("Machine timeout"));
        }
        _ => panic!("expected a library error"),
    }
}

#[test]
fn positive_status_has_no_description() {
    match check_code("libriscv_jump", 7, Some("ignored")) {
        Err(Error::Library { code, message, .. }) => {
            assert_eq!(code, 7);
            assert_eq!(message, None);
        }
        _ => panic!("expected a library error"),
    }
    assert_eq!(error_message(7, Some("ignored")), None);
    assert_eq!(error_message(0, Some("ignored")), None);
    assert_eq!(error_message(-1, Some("General exception")), Some("General exception"));
    assert_eq!(error_message(-1, None), None);
}

#[test]
fn display_text_of_each_error() {
    assert_eq!(Error::ArgsTooLarge(4294967296).to_display_string(), "too many arguments: 4294967296");
    assert_eq!(Error::ElfTooLarge(5000000000).to_display_string(), "ELF size 5000000000 exceeds u32::MAX");
    assert_eq!(
        Error::InvalidRegisterIndex { index: 32, max: 31 }.to_display_string(),
        "register index 32 out of range (max 31)"
    );
    assert_eq!(
        Error::InvalidSyscallIndex { index: 512, max: 511 }.to_display_string(),
        "syscall index 512 out of range (max 511)"
    );
    assert_eq!(
        Error::LengthTooLarge { op: "libriscv_memview", len: 0 }.to_display_string(),
        "libriscv_memview length 0 exceeds u32::MAX"
    );
    assert_eq!(
        Error::UnalignedPageRange { destination: 0x10001, size: 0x1000 }.to_display_string(),
        "guest page range address 0x10001 and size 0x1000 must be 4096-byte aligned"
    );
    assert_eq!(
        Error::UnalignedPageRange { destination: 0, size: 0xdeadbeef }.to_display_string(),
        "guest page range address 0x0 and size 0xdeadbeef must be 4096-byte aligned"
    );
    assert_eq!(
        Error::Library { op: "libriscv_run", code: -3, message: Some("Machine timeout") }
            .to_display_string(),
        "libriscv_run failed (-3): Machine timeout"
    );
    assert_eq!(
        Error::Library { op: "libriscv_run", code: i32::MIN, message: None }.to_display_string(),
        "libriscv_run failed (-2147483648)"
    );
    assert_eq!(Error::NonUtf8Path.to_display_string(), "path contains invalid UTF-8");
    assert_eq!(
        Error::NullPointer("libriscv_new").to_display_string(),
        "libriscv_new returned a null pointer"
    );
}

#[test]
fn display_text_matches_std_formatting() {
    for len in [0usize, 9, 10, 99, 100, 12345, usize::MAX] {
        assert_eq!(Error::ArgsTooLarge(len).to_display_string(), format!("too many arguments: {len}"));
    }
    for (destination, size) in [(0u64, 1u64), (15, 16), (255, 4096), (u64::MAX, 0xabcdef)] {
        assert_eq!(
            Error::UnalignedPageRange { destination, size }.to_display_string(),
            format!("guest page range address {destination:#x} and size {size:#x} must be 4096-byte aligned")
        );
    }
    for code in [-1i32, 1, 0, 42, i32::MAX, i32::MIN] {
        assert_eq!(
            Error::Library { op: "op", code, message: None }.to_display_string(),
            format!("op failed ({code})")
        );
    }
}

#[test]
fn nul_error_text_and_conversion() {
    let err = match Options::builder().args(vec!["abc\0".to_string()]).build() {
        Err(Error::NulError(err)) => err,
        _ => panic!("expected a NUL error"),
    };
    assert_eq!(err.nul_position(), 3);
    let error: Error = err.into();
    assert_eq!(error.to_display_string(), "nul byte found in provided data at position: 3");
}

#[test]
fn only_negative_codes_are_described() {
    assert!(libriscv::is_described(-1));
    assert!(libriscv::is_described(i32::MIN));
    assert!(!libriscv::is_described(0));
    assert!(!libriscv::is_described(3));
}
