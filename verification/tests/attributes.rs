use libriscv::attributes::{
    check_handler_signature, parse_syscall_id, validate_context_arg, wraps_syscall_result,
    ArgShape, AttrMeta, AttrValue, ContextArgError, HandlerSignature, OutputShape,
    SignatureError, SyscallAttrError, TypeShape,
};

fn context(mutable: bool, name: Option<&str>) -> ArgShape {
    ArgShape::Typed(TypeShape::Reference { mutable, path_last_segment: name.map(|n| n.to_string()) })
}

fn signature(args: Vec<ArgShape>) -> HandlerSignature {
    HandlerSignature { is_async: false, is_unsafe: false, has_generics: false, is_variadic: false, args }
}

#[test]
fn context_argument_must_be_one_mutable_reference() {
    assert_eq!(validate_context_arg(&vec![context(true, Some("SyscallContext"))], "SyscallContext"), Ok(()));
    assert_eq!(validate_context_arg(&vec![], "SyscallContext"), Err(ContextArgError::WrongArity));
    assert_eq!(
        validate_context_arg(
            &vec![context(true, Some("SyscallContext")), context(true, Some("SyscallContext"))],
            "SyscallContext"
        ),
        Err(ContextArgError::WrongArity)
    );
    assert_eq!(validate_context_arg(&vec![context(false, Some("SyscallContext"))], "SyscallContext"), Err(ContextArgError::WrongType));
    assert_eq!(validate_context_arg(&vec![context(true, Some("ErrorContext"))], "SyscallContext"), Err(ContextArgError::WrongType));
    assert_eq!(validate_context_arg(&vec![context(true, None)], "SyscallContext"), Err(ContextArgError::WrongType));
    assert_eq!(validate_context_arg(&vec![ArgShape::Receiver], "StdoutContext"), Err(ContextArgError::WrongType));
    assert_eq!(validate_context_arg(&vec![ArgShape::Typed(TypeShape::Other)], "StdoutContext"), Err(ContextArgError::WrongType));
}

#[test]
fn handler_signature_checks_in_order() {
    let good = signature(vec![context(true, Some("ErrorContext"))]);
    assert_eq!(check_handler_signature(&good, "ErrorContext"), Ok(()));
    let mut bad = signature(vec![]);
    bad.is_async = true;
    bad.is_unsafe = true;
    assert_eq!(check_handler_signature(&bad, "ErrorContext"), Err(SignatureError::Async));
    bad.is_async = false;
    assert_eq!(check_handler_signature(&bad, "ErrorContext"), Err(SignatureError::Unsafe));
    bad.is_unsafe = false;
    bad.has_generics = true;
    bad.is_variadic = true;
    assert_eq!(check_handler_signature(&bad, "ErrorContext"), Err(SignatureError::Generics));
    bad.has_generics = false;
    assert_eq!(check_handler_signature(&bad, "ErrorContext"), Err(SignatureError::Variadic));
    bad.is_variadic = false;
    assert_eq!(
        check_handler_signature(&bad, "ErrorContext"),
        Err(SignatureError::ContextArg(ContextArgError::WrongArity))
    );
}

#[test]
fn syscall_result_returns_are_wrapped() {
    let result = OutputShape::Path { last_segment: Some("SyscallResult".to_string()), first_argument_is_type: true };
    assert!(wraps_syscall_result(&result));
    let bare = OutputShape::Path { last_segment: Some("SyscallResult".to_string()), first_argument_is_type: false };
    assert!(!wraps_syscall_result(&bare));
    let other = OutputShape::Path { last_segment: Some("Result".to_string()), first_argument_is_type: true };
    assert!(!wraps_syscall_result(&other));
    assert!(!wraps_syscall_result(&OutputShape::Default));
    assert!(!wraps_syscall_result(&OutputShape::Other));
}

#[test]
fn syscall_attribute_forms() {
    let id = |value| AttrMeta::NameValue { path_is_id: true, value };
    assert_eq!(parse_syscall_id(id(AttrValue::IntLiteral(Some(500)))), Ok(500));
    assert_eq!(parse_syscall_id(id(AttrValue::IntLiteral(None))), Err(SyscallAttrError::IdOutOfRange));
    assert_eq!(parse_syscall_id(id(AttrValue::OtherLiteral)), Err(SyscallAttrError::NotIntegerLiteral));
    assert_eq!(parse_syscall_id(id(AttrValue::NotLiteral)), Err(SyscallAttrError::NotLiteral));
    assert_eq!(
        parse_syscall_id(AttrMeta::NameValue { path_is_id: false, value: AttrValue::IntLiteral(Some(1)) }),
        Err(SyscallAttrError::ExpectedIdPath)
    );
    assert_eq!(parse_syscall_id(AttrMeta::Other), Err(SyscallAttrError::ExpectedNameValue));
    assert_eq!(parse_syscall_id(AttrMeta::Unparsable), Err(SyscallAttrError::Unparsable));
}

use libriscv::attributes::{
    check_handler_item, item_wraps_syscall_result, plan_registry_module, syscall_attribute_id,
    AttrSite, HandlerItemError, Registration, RegistryModuleError,
};
use libriscv::SyscallId;

const REGISTRY_OK: &str = "mod host_syscalls {
    use super::*;

    #[syscall(id = 500)]
    fn host_function_500(_ctx: &mut SyscallContext) -> SyscallResult<()> {
        Ok(())
    }
}";

const REGISTRY_DUPLICATE: &str = "mod host_syscalls {
    use super::*;

    #[syscall(id = 500)]
    fn host_function_500(_ctx: &mut SyscallContext) -> SyscallResult<()> {
        Ok(())
    }

    #[syscall(id = 500)]
    fn host_function_500_dupe(_ctx: &mut SyscallContext) -> SyscallResult<()> {
        Ok(())
    }
}";

const REGISTRY_OUT_OF_RANGE: &str = "mod host_syscalls {
    use super::*;

    #[syscall(id = 512)]
    fn host_function_512(_ctx: &mut SyscallContext) -> SyscallResult<()> {
        Ok(())
    }
}";

const HANDLER_500: &str = "fn host_function_500(_ctx: &mut SyscallContext) -> SyscallResult<()> {
    Ok(())
}";

fn id_meta(id: u32) -> AttrMeta {
    AttrMeta::NameValue { path_is_id: true, value: AttrValue::IntLiteral(Some(id)) }
}

#[test]
fn syscall_registry_expands() {
    // The module of one handler for id 500 is accepted, and its handler is well formed.
    assert_eq!(plan_registry_module("", REGISTRY_OK), Ok(vec![Registration { item: 1, id: 500 }]));
    assert_eq!(check_handler_item(HANDLER_500, "SyscallContext"), Ok(()));
    assert!(item_wraps_syscall_result(HANDLER_500));

    // Two handlers for id 500: the second attribute is refused.
    assert_eq!(
        plan_registry_module("", REGISTRY_DUPLICATE),
        Err(RegistryModuleError::Duplicate { site: AttrSite { item: 2, attr: 0, meta: id_meta(500) }, id: 500 })
    );

    // id 512 reads as a number but is no syscall index, so `#[syscall]` refuses it.
    assert_eq!(plan_registry_module("", REGISTRY_OUT_OF_RANGE), Ok(vec![Registration { item: 1, id: 512 }]));
    assert_eq!(syscall_attribute_id("id = 512"), Ok(512));
    assert!(SyscallId::new(512).is_err());
}

#[test]
fn syscall_attribute_text_forms() {
    assert_eq!(syscall_attribute_id("id = 500"), Ok(500));
    assert_eq!(syscall_attribute_id("id = 0x1f4"), Ok(500));
    assert_eq!(syscall_attribute_id("id = 5000000000"), Err(SyscallAttrError::IdOutOfRange));
    assert_eq!(syscall_attribute_id("id = \"x\""), Err(SyscallAttrError::NotIntegerLiteral));
    assert_eq!(syscall_attribute_id("id = x"), Err(SyscallAttrError::NotLiteral));
    assert_eq!(syscall_attribute_id("nr = 1"), Err(SyscallAttrError::ExpectedIdPath));
    assert_eq!(syscall_attribute_id("id"), Err(SyscallAttrError::ExpectedNameValue));
    assert_eq!(syscall_attribute_id("id(1)"), Err(SyscallAttrError::ExpectedNameValue));
    assert_eq!(syscall_attribute_id("= ="), Err(SyscallAttrError::Unparsable));
}

#[test]
fn handler_items_from_text() {
    let ok = "fn f(ctx: &mut ErrorContext) {}";
    assert_eq!(check_handler_item(ok, "ErrorContext"), Ok(()));
    assert_eq!(
        check_handler_item(ok, "StdoutContext"),
        Err(HandlerItemError::Signature(SignatureError::ContextArg(ContextArgError::WrongType)))
    );
    assert_eq!(
        check_handler_item("async fn f(ctx: &mut SyscallContext) {}", "SyscallContext"),
        Err(HandlerItemError::Signature(SignatureError::Async))
    );
    assert_eq!(
        check_handler_item("unsafe fn f(ctx: &mut SyscallContext) {}", "SyscallContext"),
        Err(HandlerItemError::Signature(SignatureError::Unsafe))
    );
    assert_eq!(
        check_handler_item("fn f<T>(ctx: &mut SyscallContext) {}", "SyscallContext"),
        Err(HandlerItemError::Signature(SignatureError::Generics))
    );
    assert_eq!(
        check_handler_item("fn f(ctx: &SyscallContext) {}", "SyscallContext"),
        Err(HandlerItemError::Signature(SignatureError::ContextArg(ContextArgError::WrongType)))
    );
    assert_eq!(
        check_handler_item("fn f(a: &mut SyscallContext, b: u32) {}", "SyscallContext"),
        Err(HandlerItemError::Signature(SignatureError::ContextArg(ContextArgError::WrongArity)))
    );
    assert_eq!(
        check_handler_item("fn f(&mut self) {}", "SyscallContext"),
        Err(HandlerItemError::Signature(SignatureError::ContextArg(ContextArgError::WrongType)))
    );
    assert_eq!(check_handler_item("struct S;", "SyscallContext"), Err(HandlerItemError::Unparsable));

    assert!(!item_wraps_syscall_result("fn f(c: &mut SyscallContext) {}"));
    assert!(!item_wraps_syscall_result("fn f(c: &mut SyscallContext) -> Result<()> { Ok(()) }"));
    assert!(!item_wraps_syscall_result("fn f(c: &mut SyscallContext) -> SyscallResult { todo() }"));
    assert!(item_wraps_syscall_result("fn f(c: &mut SyscallContext) -> crate::SyscallResult<u64> { Ok(1) }"));
    assert!(!item_wraps_syscall_result("not a function"));
}

#[test]
fn registry_modules_from_text() {
    assert_eq!(plan_registry_module("x", REGISTRY_OK), Err(RegistryModuleError::TakesNoArguments));
    assert_eq!(plan_registry_module("", "mod host_syscalls;"), Err(RegistryModuleError::NotInline));
    assert_eq!(plan_registry_module("", "fn f() {}"), Err(RegistryModuleError::Unparsable));
    assert_eq!(plan_registry_module("", "mod m { fn plain() {} struct S; }"), Ok(vec![]));

    let mixed = "mod m {
        #[inline]
        #[syscall(id = 3)]
        fn three(c: &mut SyscallContext) {}
        #[syscall(id = 1)]
        #[syscall(id = 2)]
        fn one_and_two(c: &mut SyscallContext) {}
    }";
    assert_eq!(
        plan_registry_module("", mixed),
        Ok(vec![
            Registration { item: 0, id: 3 },
            Registration { item: 1, id: 1 },
            Registration { item: 1, id: 2 },
        ])
    );

    let malformed = "mod m {
        #[syscall(id = 3)]
        fn three(c: &mut SyscallContext) {}
        #[doc = \"x\"]
        #[syscall(nr = 4)]
        fn four(c: &mut SyscallContext) {}
    }";
    assert_eq!(
        plan_registry_module("", malformed),
        Err(RegistryModuleError::Attr {
            site: AttrSite {
                item: 1,
                attr: 1,
                meta: AttrMeta::NameValue { path_is_id: false, value: AttrValue::IntLiteral(Some(4)) },
            },
            error: SyscallAttrError::ExpectedIdPath,
        })
    );

    let bare = "mod m { #[syscall] fn f(c: &mut SyscallContext) {} }";
    assert_eq!(
        plan_registry_module("", bare),
        Err(RegistryModuleError::Attr {
            site: AttrSite { item: 0, attr: 0, meta: AttrMeta::Unparsable },
            error: SyscallAttrError::Unparsable,
        })
    );
}
