use libriscv::attributes::{check_no_arguments, AttributeUseError};
use libriscv::attributes::{plan_registry, AttrMeta, AttrSite, AttrValue, RegistryError, SyscallAttrError};
use libriscv::{
    Error, SyscallHandler, SyscallHandlerOutput, SyscallId, SyscallRegistry, SyscallRegistryBuilder,
    SyscallResult, SYSCALLS_MAX,
};

#[test]
fn syscall_ids_below_the_maximum_are_valid() {
    assert_eq!(SYSCALLS_MAX, 512);
    assert_eq!(SyscallId::new(0).unwrap().get(), 0);
    assert_eq!(SyscallId::new(500).unwrap().get(), 500);
    assert_eq!(SyscallId::new(511).unwrap().get(), 511);
}

#[test]
fn syscall_ids_at_or_above_the_maximum_are_refused() {
    for index in [512u32, 513, u32::MAX] {
        match SyscallId::new(index) {
            Err(Error::InvalidSyscallIndex { index: i, max }) => {
                assert_eq!(i, index as usize);
                assert_eq!(max, 511);
            }
            _ => panic!("expected an invalid index"),
        }
    }
}

#[test]
fn syscall_id_conversions() {
    let id = SyscallId::try_from(42u32).unwrap();
    assert_eq!(u32::from(id), 42);
    let id: u32 = SyscallId::try_from(7usize).unwrap().into();
    assert_eq!(id, 7);
    assert!(SyscallId::try_from(512u32).is_err());
    match SyscallId::try_from(u32::MAX as usize + 1) {
        Err(Error::InvalidSyscallIndex { index, max }) => {
            assert_eq!(index, u32::MAX as usize + 1);
            assert_eq!(max, 511);
        }
        _ => panic!("expected an invalid index"),
    }
    assert_eq!(SyscallId::new(3).unwrap(), SyscallId::try_from(3usize).unwrap());
}

#[test]
fn handlers_hold_their_entry() {
    assert_eq!(SyscallHandler::clear().0, 0);
    assert_eq!(SyscallHandler::new(0x4000).0, 0x4000);
}

#[test]
fn registry_holds_registered_handlers() {
    let empty = SyscallRegistry::empty();
    assert_eq!(empty.handler(SyscallId::new(500).unwrap()), SyscallHandler::clear());

    let mut builder = SyscallRegistryBuilder::new();
    builder.register(SyscallId::new(500).unwrap(), SyscallHandler::new(0x10)).unwrap();
    builder.register(SyscallId::new(501).unwrap(), SyscallHandler::new(0x20)).unwrap();
    builder.register(SyscallId::new(500).unwrap(), SyscallHandler::new(0x30)).unwrap();
    let registry = builder.build();
    assert_eq!(registry.handler(SyscallId::new(500).unwrap()).0, 0x30);
    assert_eq!(registry.handler(SyscallId::new(501).unwrap()).0, 0x20);
    assert_eq!(registry.handler(SyscallId::new(502).unwrap()).0, 0);
    assert_eq!(registry.handler(SyscallId::new(511).unwrap()).0, 0);
}

#[test]
fn handler_outputs_are_consumed() {
    ().handle();
    let result: SyscallResult<u32> = Ok(5).into();
    assert!(matches!(result.0, Ok(5)));
    result.handle();
    let failed: SyscallResult<()> = SyscallResult::from(Err(Error::NonUtf8Path));
    assert!(matches!(failed.0, Err(Error::NonUtf8Path)));
    failed.handle();
}

fn id_site(item: usize, id: u32) -> AttrSite {
    AttrSite { item, attr: 0, meta: AttrMeta::NameValue { path_is_id: true, value: AttrValue::IntLiteral(Some(id)) } }
}

#[test]
fn registry_plans_of_the_fixture_modules() {
    // A module with one `#[syscall(id = 500)]` handler.
    let ok = plan_registry(&vec![id_site(0, 500)]).unwrap();
    assert_eq!(ok.len(), 1);
    assert_eq!((ok[0].item, ok[0].id), (0, 500));

    // Two handlers for id 500: the second attribute is refused.
    assert_eq!(
        plan_registry(&vec![id_site(0, 500), id_site(1, 500)]).unwrap_err(),
        RegistryError::Duplicate { site: 1, id: 500 }
    );

    // id 512 parses, but is no syscall index.
    let out_of_range = plan_registry(&vec![id_site(0, 512)]).unwrap();
    assert_eq!(out_of_range[0].id, 512);
    assert!(SyscallId::new(out_of_range[0].id).is_err());
}

#[test]
fn registry_reports_the_first_malformed_attribute() {
    let sites = vec![
        id_site(0, 1),
        AttrSite { item: 1, attr: 0, meta: AttrMeta::NameValue { path_is_id: false, value: AttrValue::IntLiteral(Some(2)) } },
        id_site(2, 1),
    ];
    assert_eq!(
        plan_registry(&sites).unwrap_err(),
        RegistryError::Attr { site: 1, error: SyscallAttrError::ExpectedIdPath }
    );
    let sites = vec![id_site(0, 1), id_site(1, 2), id_site(3, 3)];
    let regs = plan_registry(&sites).unwrap();
    assert_eq!(regs.iter().map(|r| (r.item, r.id)).collect::<Vec<_>>(), vec![(0, 1), (1, 2), (3, 3)]);
}

#[test]
fn attribute_placement() {
    assert_eq!(check_no_arguments(""), Ok(()));
    assert_eq!(check_no_arguments("id = 1"), Err(AttributeUseError::TakesNoArguments));
}
