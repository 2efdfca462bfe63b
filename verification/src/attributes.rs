//! What the handler attributes (`#[syscall]`, `#[syscall_handler]`, `#[error_handler]`,
//! `#[stdout_handler]`, `#[syscall_registry]`) accept: first over a plain description of the
//! code they are written on, then over its source text as `syn` reads it.
use vstd::prelude::*;

verus! {

/// Why an attribute is written where it cannot stand.
#[derive(Debug, Clone, Copy, PartialEq, Eq, Structural)]
pub enum AttributeUseError {
    /// `#[syscall_registry]`, `#[syscall_handler]`, `#[error_handler]` and `#[stdout_handler]`
    /// take no arguments.
    TakesNoArguments,
}

/// An attribute that takes no arguments accepts exactly an empty argument text.
pub fn check_no_arguments(arguments: &str) -> (r: core::result::Result<(), AttributeUseError>)
    ensures
        r == (if arguments@.len() == 0 {
            core::result::Result::<(), AttributeUseError>::Ok(())
        } else {
            core::result::Result::<(), AttributeUseError>::Err(AttributeUseError::TakesNoArguments)
        }),
{
    if arguments.is_empty() {
        Ok(())
    } else {
        Err(AttributeUseError::TakesNoArguments)
    }
}

/// The type of a typed function parameter.
pub enum TypeShape {
    /// `&T` or `&mut T`; `path_last_segment` names the last segment of `T` where `T` is a path
    /// with at least one segment.
    Reference { mutable: bool, path_last_segment: Option<String> },
    /// Any other type.
    Other,
}

/// A function parameter.
pub enum ArgShape {
    /// `self`, `&self` or `&mut self`.
    Receiver,
    /// `pattern: Type`.
    Typed(TypeShape),
}

/// What a function parameter is, as plain values.
pub enum ArgView {
    Receiver,
    Reference { mutable: bool, path_last_segment: Option<Seq<char>> },
    Other,
}

/// The view of a parameter.
pub open spec fn arg_view(a: ArgShape) -> ArgView {
    match a {
        ArgShape::Receiver => ArgView::Receiver,
        ArgShape::Typed(TypeShape::Reference { mutable, path_last_segment }) => ArgView::Reference {
            mutable,
            path_last_segment: match path_last_segment {
                Some(name) => Some(name@),
                None => None,
            },
        },
        ArgShape::Typed(TypeShape::Other) => ArgView::Other,
    }
}

/// The view of a parameter list.
pub open spec fn args_view(args: Seq<ArgShape>) -> Seq<ArgView> {
    args.map_values(|a: ArgShape| arg_view(a))
}

/// Why a handler's parameter list is refused.
#[derive(Debug, Clone, Copy, PartialEq, Eq, Structural)]
pub enum ContextArgError {
    /// Not exactly one parameter.
    WrongArity,
    /// The one parameter is not `&mut Context` for the expected context type.
    WrongType,
}

/// Whether a parameter is `&mut P` where the last segment of path `P` is `expected`.
pub open spec fn is_context_arg(arg: ArgView, expected: Seq<char>) -> bool {
    match arg {
        ArgView::Reference { mutable, path_last_segment } => mutable
            && path_last_segment == Some(expected),
        _ => false,
    }
}

/// The decision on a handler's parameter list.
pub open spec fn spec_validate_context_arg(args: Seq<ArgView>, expected: Seq<char>) -> core::result::Result<(), ContextArgError> {
    if args.len() != 1 {
        Err(ContextArgError::WrongArity)
    } else if is_context_arg(args[0], expected) {
        Ok(())
    } else {
        Err(ContextArgError::WrongType)
    }
}

/// A handler takes exactly one parameter, `&mut` of the context type named `expected`.
pub fn validate_context_arg(args: &Vec<ArgShape>, expected: &str) -> (r: core::result::Result<(), ContextArgError>)
    ensures
        r == spec_validate_context_arg(args_view(args@), expected@),
{
    if args.len() != 1 {
        return Err(ContextArgError::WrongArity);
    }
    let ok = match &args[0] {
        ArgShape::Typed(TypeShape::Reference { mutable, path_last_segment }) => {
            if !*mutable {
                false
            } else {
                match path_last_segment {
                    Some(name) => *name == String::from_str(expected),
                    None => false,
                }
            }
        },
        _ => false,
    };
    if ok {
        Ok(())
    } else {
        Err(ContextArgError::WrongType)
    }
}

/// A handler's parameter list is accepted exactly when it is the one parameter `&mut P`, the
/// last segment of `P` being the expected name as a whole; a single reference whose last
/// segment is any other name, or that is not `&mut`, is of the wrong type.
pub proof fn lemma_context_arg_exact(args: Seq<ArgView>, expected: Seq<char>)
    ensures
        spec_validate_context_arg(args, expected) is Ok <==> (args.len() == 1 && args[0] == ArgView::Reference {
            mutable: true,
            path_last_segment: Some(expected),
        }),
        args.len() != 1 ==> spec_validate_context_arg(args, expected) == Err::<(), ContextArgError>(ContextArgError::WrongArity),
        args.len() == 1 && (args[0] matches ArgView::Reference { mutable, path_last_segment } && (!mutable || path_last_segment != Some(expected)))
            ==> spec_validate_context_arg(args, expected) == Err::<(), ContextArgError>(ContextArgError::WrongType),
{
}

/// The signature of a function that a handler attribute is written on.
pub struct HandlerSignature {
    pub is_async: bool,
    pub is_unsafe: bool,
    pub has_generics: bool,
    pub is_variadic: bool,
    pub args: Vec<ArgShape>,
}

/// Why a handler attribute refuses a function.
#[derive(Debug, Clone, Copy, PartialEq, Eq, Structural)]
pub enum SignatureError {
    Async,
    Unsafe,
    Generics,
    Variadic,
    ContextArg(ContextArgError),
}

/// The decision on a handler's signature, checked in this order: `async`, `unsafe`,
/// generics, variadics, then the parameter list.
pub open spec fn spec_check_handler_signature(
    is_async: bool,
    is_unsafe: bool,
    has_generics: bool,
    is_variadic: bool,
    args: Seq<ArgView>,
    expected: Seq<char>,
) -> core::result::Result<(), SignatureError> {
    if is_async {
        Err(SignatureError::Async)
    } else if is_unsafe {
        Err(SignatureError::Unsafe)
    } else if has_generics {
        Err(SignatureError::Generics)
    } else if is_variadic {
        Err(SignatureError::Variadic)
    } else {
        match spec_validate_context_arg(args, expected) {
            Ok(()) => Ok(()),
            Err(e) => Err(SignatureError::ContextArg(e)),
        }
    }
}

/// A handler is a plain (not `async`, not `unsafe`, not generic, not variadic) function of
/// one `&mut` context parameter, the context type being named `expected`.
pub fn check_handler_signature(sig: &HandlerSignature, expected: &str) -> (r: core::result::Result<(), SignatureError>)
    ensures
        r == spec_check_handler_signature(
            sig.is_async,
            sig.is_unsafe,
            sig.has_generics,
            sig.is_variadic,
            args_view(sig.args@),
            expected@,
        ),
{
    if sig.is_async {
        return Err(SignatureError::Async);
    }
    if sig.is_unsafe {
        return Err(SignatureError::Unsafe);
    }
    if sig.has_generics {
        return Err(SignatureError::Generics);
    }
    if sig.is_variadic {
        return Err(SignatureError::Variadic);
    }
    match validate_context_arg(&sig.args, expected) {
        Ok(()) => Ok(()),
        Err(e) => Err(SignatureError::ContextArg(e)),
    }
}

/// The return type written on a handler.
pub enum OutputShape {
    /// No return type.
    Default,
    /// A path type: its last segment's name, and whether that segment has angle-bracketed
    /// arguments of which the first is a type.
    Path { last_segment: Option<String>, first_argument_is_type: bool },
    /// Any other type.
    Other,
}

/// What a return type is, as plain values.
pub enum OutputView {
    Default,
    Path { last_segment: Option<Seq<char>>, first_argument_is_type: bool },
    Other,
}

/// The view of a return type.
pub open spec fn output_view(o: OutputShape) -> OutputView {
    match o {
        OutputShape::Default => OutputView::Default,
        OutputShape::Path { last_segment, first_argument_is_type } => OutputView::Path {
            last_segment: match last_segment {
                Some(name) => Some(name@),
                None => None,
            },
            first_argument_is_type,
        },
        OutputShape::Other => OutputView::Other,
    }
}

/// Whether the handler returns `SyscallResult<T>`, whose body is then run as a closure
/// returning `Result<T>` and converted.
pub open spec fn spec_wraps_syscall_result(output: OutputView) -> bool {
    match output {
        OutputView::Path { last_segment, first_argument_is_type } => first_argument_is_type
            && last_segment == Some("SyscallResult"@),
        _ => false,
    }
}

/// Decides whether a handler's body is to be wrapped so that `?` works in it.
pub fn wraps_syscall_result(output: &OutputShape) -> (r: bool)
    ensures
        r == spec_wraps_syscall_result(output_view(*output)),
{
    match output {
        OutputShape::Path { last_segment, first_argument_is_type } => {
            if !*first_argument_is_type {
                return false;
            }
            match last_segment {
                Some(name) => *name == String::from_str("SyscallResult"),
                None => false,
            }
        },
        _ => false,
    }
}

/// The value written in `#[syscall(id = <value>)]`.
#[derive(Debug, Clone, Copy, PartialEq, Eq, Structural)]
pub enum AttrValue {
    /// An integer literal, with its value where it fits a `u32`.
    IntLiteral(Option<u32>),
    /// Another literal.
    OtherLiteral,
    /// Not a literal.
    NotLiteral,
}

/// The inside of a `#[syscall(..)]` attribute.
#[derive(Debug, Clone, Copy, PartialEq, Eq, Structural)]
pub enum AttrMeta {
    /// `path = value`; `path_is_id` where the path is the single identifier `id`.
    NameValue { path_is_id: bool, value: AttrValue },
    /// A path or a list.
    Other,
    /// Not an attribute argument at all.
    Unparsable,
}

/// Why a `#[syscall(..)]` attribute is refused.
#[derive(Debug, Clone, Copy, PartialEq, Eq, Structural)]
pub enum SyscallAttrError {
    /// The arguments do not parse.
    Unparsable,
    /// `path = value` where the path is not `id`.
    ExpectedIdPath,
    /// Not of the form `path = value`.
    ExpectedNameValue,
    /// An integer literal that does not fit a `u32`.
    IdOutOfRange,
    /// A literal that is not an integer.
    NotIntegerLiteral,
    /// Not a literal.
    NotLiteral,
}

/// The syscall number that an attribute gives, or why it gives none.
pub open spec fn spec_parse_syscall_id(meta: AttrMeta) -> core::result::Result<u32, SyscallAttrError> {
    match meta {
        AttrMeta::NameValue { path_is_id, value } => {
            if !path_is_id {
                Err(SyscallAttrError::ExpectedIdPath)
            } else {
                match value {
                    AttrValue::IntLiteral(Some(id)) => Ok(id),
                    AttrValue::IntLiteral(None) => Err(SyscallAttrError::IdOutOfRange),
                    AttrValue::OtherLiteral => Err(SyscallAttrError::NotIntegerLiteral),
                    AttrValue::NotLiteral => Err(SyscallAttrError::NotLiteral),
                }
            }
        },
        AttrMeta::Other => Err(SyscallAttrError::ExpectedNameValue),
        AttrMeta::Unparsable => Err(SyscallAttrError::Unparsable),
    }
}

/// Reads the syscall number of `#[syscall(id = <int>)]`.
pub fn parse_syscall_id(meta: AttrMeta) -> (r: core::result::Result<u32, SyscallAttrError>)
    ensures
        r == spec_parse_syscall_id(meta),
{
    match meta {
        AttrMeta::NameValue { path_is_id, value } => {
            if !path_is_id {
                return Err(SyscallAttrError::ExpectedIdPath);
            }
            match value {
                AttrValue::IntLiteral(Some(id)) => Ok(id),
                AttrValue::IntLiteral(None) => Err(SyscallAttrError::IdOutOfRange),
                AttrValue::OtherLiteral => Err(SyscallAttrError::NotIntegerLiteral),
                AttrValue::NotLiteral => Err(SyscallAttrError::NotLiteral),
            }
        },
        AttrMeta::Other => Err(SyscallAttrError::ExpectedNameValue),
        AttrMeta::Unparsable => Err(SyscallAttrError::Unparsable),
    }
}

/// A `#[syscall(..)]` attribute inside a registry module: the index of the function it is
/// written on among the module's items, its index among that function's attributes, and its
/// arguments.
#[derive(Debug, Clone, Copy, PartialEq, Eq, Structural)]
pub struct AttrSite {
    pub item: usize,
    pub attr: usize,
    pub meta: AttrMeta,
}

/// Why a registry module is refused: the attribute at `site` (an index into the attributes in
/// source order) is malformed, or repeats a syscall number given before it.
#[derive(Debug, Clone, Copy, PartialEq, Eq, Structural)]
pub enum RegistryError {
    Attr { site: usize, error: SyscallAttrError },
    Duplicate { site: usize, id: u32 },
}

/// A handler to register: the index of its function among the module's items, and its number.
#[derive(Debug, Clone, Copy, PartialEq, Eq, Structural)]
pub struct Registration {
    pub item: usize,
    pub id: u32,
}

/// Whether a registration for `id` is among `regs`.
pub open spec fn registers_id(regs: Seq<Registration>, id: u32) -> bool {
    exists|k: int| 0 <= k < regs.len() && (#[trigger] regs[k]).id == id
}

/// The registrations that the first `n` attributes give, or the first of them that fails.
pub open spec fn spec_plan_registry(sites: Seq<AttrSite>, n: nat) -> core::result::Result<Seq<Registration>, RegistryError>
    decreases n,
{
    if n == 0 {
        Ok(Seq::empty())
    } else {
        match spec_plan_registry(sites, (n - 1) as nat) {
            Err(e) => Err(e),
            Ok(regs) => {
                let site = sites[n - 1];
                match spec_parse_syscall_id(site.meta) {
                    Err(error) => Err(RegistryError::Attr { site: (n - 1) as usize, error }),
                    Ok(id) => if registers_id(regs, id) {
                        Err(RegistryError::Duplicate { site: (n - 1) as usize, id })
                    } else {
                        Ok(regs.push(Registration { item: site.item, id }))
                    },
                }
            },
        }
    }
}

proof fn lemma_plan_registry_failure_stays(sites: Seq<AttrSite>, m: nat, n: nat)
    requires
        m <= n,
        spec_plan_registry(sites, m) is Err,
    ensures
        spec_plan_registry(sites, n) == spec_plan_registry(sites, m),
    decreases n - m,
{
    if m < n {
        lemma_plan_registry_failure_stays(sites, m, (n - 1) as nat);
    }
}

fn find_registration(regs: &Vec<Registration>, id: u32) -> (found: bool)
    ensures
        found == registers_id(regs@, id),
{
    let mut k: usize = 0;
    while k < regs.len()
        invariant
            k <= regs@.len(),
            forall|j: int| 0 <= j < k ==> (#[trigger] regs@[j]).id != id,
        decreases regs@.len() - k,
    {
        if regs[k].id == id {
            return true;
        }
        k = k + 1;
    }
    false
}

/// Reads the `#[syscall(id = ..)]` attributes of a registry module in source order: each one
/// registers its function under its number, and the first malformed or repeated one refuses
/// the module.
pub fn plan_registry(sites: &Vec<AttrSite>) -> (r: core::result::Result<Vec<Registration>, RegistryError>)
    ensures
        match r {
            Ok(regs) => spec_plan_registry(sites@, sites@.len()) == core::result::Result::<Seq<Registration>, RegistryError>::Ok(regs@),
            Err(e) => spec_plan_registry(sites@, sites@.len()) == core::result::Result::<Seq<Registration>, RegistryError>::Err(e),
        },
{
    let mut regs: Vec<Registration> = Vec::new();
    let mut i: usize = 0;
    while i < sites.len()
        invariant
            i <= sites@.len(),
            spec_plan_registry(sites@, i as nat) == core::result::Result::<Seq<Registration>, RegistryError>::Ok(regs@),
        decreases sites@.len() - i,
    {
        let site = sites[i];
        match parse_syscall_id(site.meta) {
            Err(error) => {
                proof {
                    lemma_plan_registry_failure_stays(sites@, (i + 1) as nat, sites@.len());
                }
                return Err(RegistryError::Attr { site: i, error });
            },
            Ok(id) => {
                if find_registration(&regs, id) {
                    proof {
                        lemma_plan_registry_failure_stays(sites@, (i + 1) as nat, sites@.len());
                    }
                    return Err(RegistryError::Duplicate { site: i, id });
                }
                regs.push(Registration { item: site.item, id });
            },
        }
        i = i + 1;
    }
    Ok(regs)
}

/// A registry module that is accepted registers each syscall number at most once, and each
/// registration carries the number that its attribute gives.
pub proof fn lemma_plan_registry_distinct(sites: Seq<AttrSite>)
    requires
        spec_plan_registry(sites, sites.len()) is Ok,
    ensures
        ({
            let regs = spec_plan_registry(sites, sites.len())->Ok_0;
            &&& regs.len() == sites.len()
            &&& forall|i: int, j: int| 0 <= i < j < regs.len() ==> regs[i].id != regs[j].id
            &&& forall|i: int| 0 <= i < regs.len() ==> spec_parse_syscall_id(sites[i].meta) == core::result::Result::<u32, SyscallAttrError>::Ok(#[trigger] regs[i].id)
                && regs[i].item == sites[i].item
        }),
{
    lemma_distinct_upto(sites, sites.len());
}

proof fn lemma_distinct_upto(sites: Seq<AttrSite>, n: nat)
    requires
        n <= sites.len(),
        spec_plan_registry(sites, n) is Ok,
    ensures
        ({
            let regs = spec_plan_registry(sites, n)->Ok_0;
            &&& regs.len() == n
            &&& forall|i: int, j: int| 0 <= i < j < regs.len() ==> regs[i].id != regs[j].id
            &&& forall|i: int| 0 <= i < regs.len() ==> spec_parse_syscall_id(sites[i].meta) == core::result::Result::<u32, SyscallAttrError>::Ok(#[trigger] regs[i].id)
                && regs[i].item == sites[i].item
        }),
    decreases n,
{
    if n > 0 {
        lemma_distinct_upto(sites, (n - 1) as nat);
        let prev = spec_plan_registry(sites, (n - 1) as nat)->Ok_0;
        let regs = spec_plan_registry(sites, n)->Ok_0;
        let id = spec_parse_syscall_id(sites[n - 1].meta)->Ok_0;
        assert(!registers_id(prev, id));
        assert(regs == prev.push(Registration { item: sites[n - 1].item, id }));
        assert forall|i: int, j: int| 0 <= i < j < regs.len() implies regs[i].id != regs[j].id by {
            if j == n - 1 {
                assert(regs[i] == prev[i]);
                if regs[i].id == id {
                    assert(registers_id(prev, id));
                }
            } else {
                assert(regs[i] == prev[i] && regs[j] == prev[j]);
            }
        }
        assert forall|i: int| 0 <= i < regs.len() implies spec_parse_syscall_id(sites[i].meta) == core::result::Result::<u32, SyscallAttrError>::Ok(#[trigger] regs[i].id)
            && regs[i].item == sites[i].item by {
            if i < n - 1 {
                assert(regs[i] == prev[i]);
            }
        }
    }
}

// The source text of the code that an attribute is written on, as syn reads it.

/// What syn reads from the text of an attribute's arguments (`syn::Meta`), the path of
/// `path = value` being tested against the identifier `key`.
pub uninterp spec fn attr_meta_of(text: Seq<char>, key: Seq<char>) -> AttrMeta;

/// Reads `text` with `syn::parse_str::<syn::Meta>`: `path = value` is `NameValue`, whose
/// `path_is_id` is `Path::is_ident(key)` and whose integer literal value is
/// `LitInt::base10_parse::<u32>`; a path or a list is `Other`; text that does not parse is
/// `Unparsable`. The result is named, not described: `attr_meta_of` of the text and key.
#[verifier::external_body]
fn read_attr_meta(text: &str, key: &str) -> (m: AttrMeta)
    ensures
        m == attr_meta_of(text@, key@),
{
    match syn::parse_str::<syn::Meta>(text) {
        Ok(syn::Meta::NameValue(nv)) => AttrMeta::NameValue {
            path_is_id: nv.path.is_ident(key),
            value: match nv.value {
                syn::Expr::Lit(e) => match e.lit {
                    syn::Lit::Int(lit) => AttrValue::IntLiteral(lit.base10_parse::<u32>().ok()),
                    _ => AttrValue::OtherLiteral,
                },
                _ => AttrValue::NotLiteral,
            },
        },
        Ok(_) => AttrMeta::Other,
        Err(_) => AttrMeta::Unparsable,
    }
}

/// The syscall number that `#[syscall(<text>)]` gives, or why it gives none.
pub fn syscall_attribute_id(text: &str) -> (r: core::result::Result<u32, SyscallAttrError>)
    ensures
        r == spec_parse_syscall_id(attr_meta_of(text@, "id"@)),
{
    parse_syscall_id(read_attr_meta(text, "id"))
}

/// A function item as syn reads it (`syn::ItemFn`): the qualifiers of its signature, its
/// parameters and its return type.
pub struct FnItemView {
    pub is_async: bool,
    pub is_unsafe: bool,
    pub has_generics: bool,
    pub is_variadic: bool,
    pub args: Seq<ArgView>,
    pub output: OutputView,
}

/// What `syn::parse_str::<syn::ItemFn>` reads from `text`; none where it refuses the text.
pub uninterp spec fn fn_item_of(text: Seq<char>) -> Option<FnItemView>;

/// Reads `text` with `syn::parse_str::<syn::ItemFn>` and gives whether its signature has
/// `async`, `unsafe`, generic parameters and a variadic; none where it does not parse.
#[verifier::external_body]
fn read_fn_qualifiers(text: &str) -> (r: Option<(bool, bool, bool, bool)>)
    ensures
        match fn_item_of(text@) {
            Some(f) => r == Some((f.is_async, f.is_unsafe, f.has_generics, f.is_variadic)),
            None => r is None,
        },
{
    let f = syn::parse_str::<syn::ItemFn>(text).ok()?;
    Some((
        f.sig.asyncness.is_some(),
        f.sig.unsafety.is_some(),
        !f.sig.generics.params.is_empty(),
        f.sig.variadic.is_some(),
    ))
}

/// Reads `text` with `syn::parse_str::<syn::ItemFn>` and counts its signature's inputs.
#[verifier::external_body]
fn read_fn_arg_count(text: &str) -> (r: Option<usize>)
    ensures
        match fn_item_of(text@) {
            Some(f) => r matches Some(n) && n == f.args.len(),
            None => r is None,
        },
{
    let f = syn::parse_str::<syn::ItemFn>(text).ok()?;
    Some(f.sig.inputs.len())
}

/// Reads `text` with `syn::parse_str::<syn::ItemFn>` and gives input `index` of its signature:
/// `self` as `Receiver`; a reference type with its mutability and the last path segment of
/// its element's type (where that is a path); any other type as `Other`.
#[verifier::external_body]
fn read_fn_arg(text: &str, index: usize) -> (r: Option<ArgShape>)
    ensures
        match fn_item_of(text@) {
            Some(f) => if index < f.args.len() {
                r matches Some(a) && arg_view(a) == f.args[index as int]
            } else {
                r is None
            },
            None => r is None,
        },
{
    let f = syn::parse_str::<syn::ItemFn>(text).ok()?;
    Some(match f.sig.inputs.iter().nth(index)? {
        syn::FnArg::Receiver(_) => ArgShape::Receiver,
        syn::FnArg::Typed(pat) => ArgShape::Typed(match &*pat.ty {
            syn::Type::Reference(r) => TypeShape::Reference {
                mutable: r.mutability.is_some(),
                path_last_segment: match &*r.elem {
                    syn::Type::Path(p) => p.path.segments.last().map(|seg| seg.ident.to_string()),
                    _ => None,
                },
            },
            _ => TypeShape::Other,
        }),
    })
}

/// Reads `text` with `syn::parse_str::<syn::ItemFn>` and gives its return type: none
/// written; a path type with its last segment's name and whether that segment's first
/// angle-bracketed argument is a type; any other type.
#[verifier::external_body]
fn read_fn_output(text: &str) -> (r: Option<OutputShape>)
    ensures
        match fn_item_of(text@) {
            Some(f) => r matches Some(o) && output_view(o) == f.output,
            None => r is None,
        },
{
    let f = syn::parse_str::<syn::ItemFn>(text).ok()?;
    Some(match f.sig.output {
        syn::ReturnType::Default => OutputShape::Default,
        syn::ReturnType::Type(_, ty) => match *ty {
            syn::Type::Path(p) => OutputShape::Path {
                last_segment: p.path.segments.last().map(|seg| seg.ident.to_string()),
                first_argument_is_type: match p.path.segments.last().map(|seg| &seg.arguments) {
                    Some(syn::PathArguments::AngleBracketed(a)) => matches!(a.args.first(), Some(syn::GenericArgument::Type(_))),
                    _ => false,
                },
            },
            _ => OutputShape::Other,
        },
    })
}

/// Why a handler attribute refuses the function it is written on.
#[derive(Debug, Clone, Copy, PartialEq, Eq, Structural)]
pub enum HandlerItemError {
    /// The text is no function item.
    Unparsable,
    /// The function's signature is refused.
    Signature(SignatureError),
}

/// The decision on the function that a handler attribute is written on, given its source
/// text: it must be a function item whose signature passes [`spec_check_handler_signature`].
pub open spec fn spec_check_handler_item(text: Seq<char>, expected: Seq<char>) -> core::result::Result<(), HandlerItemError> {
    match fn_item_of(text) {
        Some(f) => match spec_check_handler_signature(f.is_async, f.is_unsafe, f.has_generics, f.is_variadic, f.args, expected) {
            Ok(()) => Ok(()),
            Err(e) => Err(HandlerItemError::Signature(e)),
        },
        None => Err(HandlerItemError::Unparsable),
    }
}

/// Checks the function, written as `text`, that a handler attribute is written on; the
/// context type is named `expected`.
pub fn check_handler_item(text: &str, expected: &str) -> (r: core::result::Result<(), HandlerItemError>)
    ensures
        r == spec_check_handler_item(text@, expected@),
{
    let qualifiers = read_fn_qualifiers(text);
    let count = read_fn_arg_count(text);
    match (qualifiers, count) {
        (Some((is_async, is_unsafe, has_generics, is_variadic)), Some(n)) => {
            let ghost f = fn_item_of(text@)->Some_0;
            let mut args: Vec<ArgShape> = Vec::new();
            let mut i: usize = 0;
            while i < n
                invariant
                    i <= n,
                    fn_item_of(text@) == Some(f),
                    n == f.args.len(),
                    args_view(args@) =~= f.args.subrange(0, i as int),
                decreases n - i,
            {
                match read_fn_arg(text, i) {
                    Some(arg) => {
                        proof {
                            assert(args_view(args@.push(arg)) =~= args_view(args@).push(arg_view(arg)));
                        }
                        args.push(arg);
                    },
                    None => {
                        return Err(HandlerItemError::Unparsable);
                    },
                }
                i = i + 1;
            }
            proof {
                assert(f.args.subrange(0, n as int) =~= f.args);
            }
            let sig = HandlerSignature { is_async, is_unsafe, has_generics, is_variadic, args };
            match check_handler_signature(&sig, expected) {
                Ok(()) => Ok(()),
                Err(e) => Err(HandlerItemError::Signature(e)),
            }
        },
        _ => Err(HandlerItemError::Unparsable),
    }
}

/// A handler attribute accepts the function written as `text` exactly when syn reads it as a
/// function that is not `async`, not `unsafe`, not generic, not variadic, and whose one
/// parameter is `&mut P`, the last segment of `P` being the expected name as a whole.
pub proof fn lemma_handler_item_exact(text: Seq<char>, expected: Seq<char>)
    ensures
        spec_check_handler_item(text, expected) is Ok <==> (fn_item_of(text) matches Some(f) && !f.is_async
            && !f.is_unsafe && !f.has_generics && !f.is_variadic && f.args == seq![
            ArgView::Reference { mutable: true, path_last_segment: Some(expected) },
        ]),
        fn_item_of(text) is None ==> spec_check_handler_item(text, expected) == Err::<(), HandlerItemError>(HandlerItemError::Unparsable),
{
    if let Some(f) = fn_item_of(text) {
        lemma_context_arg_exact(f.args, expected);
        if f.args.len() == 1 {
            assert(f.args == seq![f.args[0]]);
        }
    }
}

/// Whether the body of the function written as `text` is run as a closure returning
/// `Result<T>` and converted: its return type is `SyscallResult<T>`.
pub open spec fn spec_item_wraps_syscall_result(text: Seq<char>) -> bool {
    match fn_item_of(text) {
        Some(f) => spec_wraps_syscall_result(f.output),
        None => false,
    }
}

/// Decides, from its source text, whether a handler's body is to be wrapped.
pub fn item_wraps_syscall_result(text: &str) -> (r: bool)
    ensures
        r == spec_item_wraps_syscall_result(text@),
{
    match read_fn_output(text) {
        Some(o) => wraps_syscall_result(&o),
        None => false,
    }
}

/// An attribute of a function item inside a module, as syn reads it (`syn::Attribute`): the
/// identifier that its path is, where its path is a single identifier, and the text of its
/// arguments, where it is written `#[name(..)]`.
pub struct AttrView {
    pub ident: Option<Seq<char>>,
    pub arguments: Option<Seq<char>>,
}

/// A module item as syn reads it (`syn::ItemMod`).
pub enum ModuleView {
    /// `mod name;`, without its items inline.
    NotInline,
    /// A module with its items inline: for each item, the attributes of a function item, or
    /// none where the item is no function.
    Inline(Seq<Option<Seq<AttrView>>>),
}

/// What `syn::parse_str::<syn::ItemMod>` reads from `text`; none where it refuses the text.
pub uninterp spec fn module_item_of(text: Seq<char>) -> Option<ModuleView>;

/// The items of the inline module written as `text`; empty where it is none.
pub open spec fn module_items(text: Seq<char>) -> Seq<Option<Seq<AttrView>>> {
    match module_item_of(text) {
        Some(ModuleView::Inline(items)) => items,
        _ => Seq::empty(),
    }
}

/// The attributes of item `item` of the module written as `text`, where that is a function.
pub open spec fn fn_attrs(text: Seq<char>, item: int) -> Option<Seq<AttrView>> {
    if 0 <= item < module_items(text).len() {
        module_items(text)[item]
    } else {
        None
    }
}

/// The shape of a module item: refused, `mod name;`, or inline with this many items.
#[derive(Debug, Clone, Copy, PartialEq, Eq, Structural)]
pub enum ModuleShape {
    Unparsable,
    NotInline,
    Inline(usize),
}

/// Reads `text` with `syn::parse_str::<syn::ItemMod>` and gives whether it has its items
/// inline, and how many.
#[verifier::external_body]
fn read_module_shape(text: &str) -> (m: ModuleShape)
    ensures
        match module_item_of(text@) {
            None => m == ModuleShape::Unparsable,
            Some(ModuleView::NotInline) => m == ModuleShape::NotInline,
            Some(ModuleView::Inline(items)) => m matches ModuleShape::Inline(n) && n == items.len(),
        },
{
    match syn::parse_str::<syn::ItemMod>(text) {
        Ok(m) => match m.content {
            Some((_, items)) => ModuleShape::Inline(items.len()),
            None => ModuleShape::NotInline,
        },
        Err(_) => ModuleShape::Unparsable,
    }
}

/// Reads `text` with `syn::parse_str::<syn::ItemMod>` and counts the attributes of its item
/// `item` where that is a function item (`syn::Item::Fn`).
#[verifier::external_body]
fn read_fn_attr_count(text: &str, item: usize) -> (r: Option<usize>)
    ensures
        match fn_attrs(text@, item as int) {
            Some(attrs) => r matches Some(n) && n == attrs.len(),
            None => r is None,
        },
{
    let m = syn::parse_str::<syn::ItemMod>(text).ok()?;
    match m.content?.1.get(item)? {
        syn::Item::Fn(f) => Some(f.attrs.len()),
        _ => None,
    }
}

/// The view of an attribute read as an identifier and an argument text.
pub open spec fn attr_view(ident: Option<String>, arguments: Option<String>) -> AttrView {
    AttrView {
        ident: match ident {
            Some(s) => Some(s@),
            None => None,
        },
        arguments: match arguments {
            Some(s) => Some(s@),
            None => None,
        },
    }
}

/// Reads `text` with `syn::parse_str::<syn::ItemMod>` and gives attribute `attr` of its
/// function item `item`: `Path::get_ident` of its path as text, and the tokens of its
/// arguments as text where it is a list (`syn::Meta::List`).
#[verifier::external_body]
fn read_fn_attr(text: &str, item: usize, attr: usize) -> (r: Option<(Option<String>, Option<String>)>)
    ensures
        match fn_attrs(text@, item as int) {
            Some(attrs) => if attr < attrs.len() {
                r matches Some((ident, arguments)) && attr_view(ident, arguments) == attrs[attr as int]
            } else {
                r is None
            },
            None => r is None,
        },
{
    let (_, items) = syn::parse_str::<syn::ItemMod>(text).ok()?.content?;
    let syn::Item::Fn(f) = items.get(item)? else {
        return None;
    };
    let a = f.attrs.get(attr)?;
    Some((a.path().get_ident().map(|ident| ident.to_string()), match &a.meta {
        syn::Meta::List(list) => Some(list.tokens.to_string()),
        _ => None,
    }))
}

/// Whether an attribute is `#[syscall..]`.
pub open spec fn is_syscall_attr(a: AttrView) -> bool {
    a.ident == Some("syscall"@)
}

/// The arguments of a `#[syscall(..)]` attribute: unparsable where it has no parenthesised
/// arguments.
pub open spec fn site_meta(arguments: Option<Seq<char>>) -> AttrMeta {
    match arguments {
        Some(text) => attr_meta_of(text, "id"@),
        None => AttrMeta::Unparsable,
    }
}

/// The `#[syscall(..)]` attributes among the first `n` attributes `attrs` of item `item`.
pub open spec fn item_sites(attrs: Seq<AttrView>, item: nat, n: nat) -> Seq<AttrSite>
    decreases n,
{
    if n == 0 {
        Seq::empty()
    } else {
        let before = item_sites(attrs, item, (n - 1) as nat);
        let a = attrs[n - 1];
        if is_syscall_attr(a) {
            before.push(AttrSite { item: item as usize, attr: (n - 1) as usize, meta: site_meta(a.arguments) })
        } else {
            before
        }
    }
}

/// The `#[syscall(..)]` attributes of the function items among the first `n` of `items`, in
/// source order.
pub open spec fn module_sites(items: Seq<Option<Seq<AttrView>>>, n: nat) -> Seq<AttrSite>
    decreases n,
{
    if n == 0 {
        Seq::empty()
    } else {
        module_sites(items, (n - 1) as nat) + match items[n - 1] {
            Some(attrs) => item_sites(attrs, (n - 1) as nat, attrs.len()),
            None => Seq::empty(),
        }
    }
}

/// The sites of one function item's attributes: exactly its `#[syscall..]` attributes, in order.
proof fn lemma_item_sites(attrs: Seq<AttrView>, item: nat, n: nat)
    requires
        n <= attrs.len(),
        attrs.len() <= usize::MAX,
        item <= usize::MAX,
    ensures
        ({
            let s = item_sites(attrs, item, n);
            &&& forall|k: int| #![trigger s[k]] 0 <= k < s.len() ==> {
                &&& s[k].item == item
                &&& s[k].attr < n
                &&& attrs[s[k].attr as int].ident == Some("syscall"@)
                &&& s[k].meta == (match attrs[s[k].attr as int].arguments {
                    Some(t) => attr_meta_of(t, "id"@),
                    None => AttrMeta::Unparsable,
                })
            }
            &&& forall|j: int| 0 <= j < n && (#[trigger] attrs[j]).ident == Some("syscall"@)
                ==> exists|k: int| 0 <= k < s.len() && (#[trigger] s[k]).attr == j
            &&& forall|k1: int, k2: int| 0 <= k1 < k2 < s.len() ==> s[k1].attr < s[k2].attr
        }),
    decreases n,
{
    if n > 0 {
        lemma_item_sites(attrs, item, (n - 1) as nat);
        let before = item_sites(attrs, item, (n - 1) as nat);
        let s = item_sites(attrs, item, n);
        if is_syscall_attr(attrs[n - 1]) {
            assert(s == before.push(AttrSite { item: item as usize, attr: (n - 1) as usize, meta: site_meta(attrs[n - 1].arguments) }));
            assert forall|j: int| 0 <= j < n && (#[trigger] attrs[j]).ident == Some("syscall"@)
                implies exists|k: int| 0 <= k < s.len() && (#[trigger] s[k]).attr == j by {
                if j == n - 1 {
                    assert(s[before.len() as int].attr == j);
                } else {
                    let k = choose|k: int| 0 <= k < before.len() && (#[trigger] before[k]).attr == j;
                    assert(s[k] == before[k]);
                }
            }
        } else {
            assert forall|j: int| 0 <= j < n && (#[trigger] attrs[j]).ident == Some("syscall"@)
                implies exists|k: int| 0 <= k < s.len() && (#[trigger] s[k]).attr == j by {
                if j < n - 1 {
                    let k = choose|k: int| 0 <= k < before.len() && (#[trigger] before[k]).attr == j;
                    assert(s[k] == before[k]);
                }
            }
        }
    }
}

/// Every attribute that is read as a registry site of the module's items is a `#[syscall..]`
/// attribute of a function item, read with its own argument text; every `#[syscall..]`
/// attribute of a function item is read; and the sites come in source order. Attributes of
/// any other name give no site.
pub proof fn lemma_module_sites_are_syscall_attributes(items: Seq<Option<Seq<AttrView>>>, n: nat)
    requires
        n <= items.len(),
        items.len() <= usize::MAX,
        forall|i: int| 0 <= i < items.len() && (#[trigger] items[i]) is Some ==> items[i]->Some_0.len() <= usize::MAX,
    ensures
        ({
            let s = module_sites(items, n);
            &&& forall|k: int| #![trigger s[k]] 0 <= k < s.len() ==> {
                &&& s[k].item < n
                &&& items[s[k].item as int] is Some
                &&& s[k].attr < items[s[k].item as int]->Some_0.len()
                &&& items[s[k].item as int]->Some_0[s[k].attr as int].ident == Some("syscall"@)
                &&& s[k].meta == (match items[s[k].item as int]->Some_0[s[k].attr as int].arguments {
                    Some(t) => attr_meta_of(t, "id"@),
                    None => AttrMeta::Unparsable,
                })
            }
            &&& forall|i: int, j: int|
                #![trigger items[i]->Some_0[j]]
                0 <= i < n && items[i] is Some && 0 <= j < items[i]->Some_0.len()
                    && items[i]->Some_0[j].ident == Some("syscall"@)
                ==> exists|k: int| 0 <= k < s.len() && (#[trigger] s[k]).item == i && s[k].attr == j
            &&& forall|k1: int, k2: int| 0 <= k1 < k2 < s.len() ==> s[k1].item < s[k2].item
                || (s[k1].item == s[k2].item && s[k1].attr < s[k2].attr)
        }),
    decreases n,
{
    if n > 0 {
        let m = (n - 1) as nat;
        lemma_module_sites_are_syscall_attributes(items, m);
        let before = module_sites(items, m);
        let tail = match items[m as int] {
            Some(attrs) => item_sites(attrs, m, attrs.len()),
            None => Seq::empty(),
        };
        let s = module_sites(items, n);
        assert(s == before + tail);
        if items[m as int] is Some {
            let attrs = items[m as int]->Some_0;
            lemma_item_sites(attrs, m, attrs.len());
        }
        assert forall|k: int| #![trigger s[k]] 0 <= k < s.len() implies {
            &&& s[k].item < n
            &&& items[s[k].item as int] is Some
            &&& s[k].attr < items[s[k].item as int]->Some_0.len()
            &&& items[s[k].item as int]->Some_0[s[k].attr as int].ident == Some("syscall"@)
            &&& s[k].meta == (match items[s[k].item as int]->Some_0[s[k].attr as int].arguments {
                Some(t) => attr_meta_of(t, "id"@),
                None => AttrMeta::Unparsable,
            })
        } by {
            if k < before.len() {
                assert(s[k] == before[k]);
            } else {
                assert(s[k] == tail[k - before.len()]);
            }
        }
        assert forall|i: int, j: int|
            #![trigger items[i]->Some_0[j]]
            0 <= i < n && items[i] is Some && 0 <= j < items[i]->Some_0.len()
                && items[i]->Some_0[j].ident == Some("syscall"@)
            implies exists|k: int| 0 <= k < s.len() && (#[trigger] s[k]).item == i && s[k].attr == j by {
            if i < m {
                let k = choose|k: int| 0 <= k < before.len() && (#[trigger] before[k]).item == i && before[k].attr == j;
                assert(s[k] == before[k]);
            } else {
                let attrs = items[m as int]->Some_0;
                assert(attrs[j].ident == Some("syscall"@));
                let k = choose|k: int| 0 <= k < tail.len() && (#[trigger] tail[k]).attr == j;
                assert(s[before.len() + k] == tail[k]);
            }
        }
        assert forall|k1: int, k2: int| 0 <= k1 < k2 < s.len() implies s[k1].item < s[k2].item
            || (s[k1].item == s[k2].item && s[k1].attr < s[k2].attr) by {
            if k2 < before.len() {
                assert(s[k1] == before[k1] && s[k2] == before[k2]);
            } else if k1 < before.len() {
                assert(s[k1] == before[k1] && s[k2] == tail[k2 - before.len()]);
            } else {
                assert(s[k1] == tail[k1 - before.len()] && s[k2] == tail[k2 - before.len()]);
            }
        }
    }
}

/// Why `#[syscall_registry]` refuses the module it is written on.
#[derive(Debug, Clone, Copy, PartialEq, Eq, Structural)]
pub enum RegistryModuleError {
    /// The attribute was given arguments.
    TakesNoArguments,
    /// The text is no module item.
    Unparsable,
    /// The module's items are not inline.
    NotInline,
    /// The `#[syscall(..)]` attribute at `site` is malformed.
    Attr { site: AttrSite, error: SyscallAttrError },
    /// The `#[syscall(..)]` attribute at `site` repeats a syscall number given before it.
    Duplicate { site: AttrSite, id: u32 },
}

/// The decision of `#[syscall_registry]` with arguments `arguments` on the module `text`.
pub open spec fn spec_plan_registry_module(arguments: Seq<char>, text: Seq<char>) -> core::result::Result<Seq<Registration>, RegistryModuleError> {
    if arguments.len() != 0 {
        Err(RegistryModuleError::TakesNoArguments)
    } else {
        match module_item_of(text) {
            None => Err(RegistryModuleError::Unparsable),
            Some(ModuleView::NotInline) => Err(RegistryModuleError::NotInline),
            Some(ModuleView::Inline(items)) => {
                let sites = module_sites(items, items.len());
                match spec_plan_registry(sites, sites.len()) {
                    Ok(regs) => Ok(regs),
                    Err(RegistryError::Attr { site, error }) => Err(RegistryModuleError::Attr { site: sites[site as int], error }),
                    Err(RegistryError::Duplicate { site, id }) => Err(RegistryModuleError::Duplicate { site: sites[site as int], id }),
                }
            },
        }
    }
}

proof fn lemma_plan_registry_error_site(sites: Seq<AttrSite>, n: nat)
    requires
        spec_plan_registry(sites, n) is Err,
    ensures
        match spec_plan_registry(sites, n) {
            Err(RegistryError::Attr { site, .. }) => site < n,
            Err(RegistryError::Duplicate { site, .. }) => site < n,
            Ok(_) => true,
        },
    decreases n,
{
    if n > 0 && spec_plan_registry(sites, (n - 1) as nat) is Err {
        lemma_plan_registry_error_site(sites, (n - 1) as nat);
    }
}

/// The `#[syscall(..)]` attributes of the function items of the inline module `text`, which
/// has `n` items.
fn registry_sites(text: &str, n: usize) -> (sites: Vec<AttrSite>)
    requires
        n == module_items(text@).len(),
    ensures
        sites@ == module_sites(module_items(text@), n as nat),
{
    let ghost items = module_items(text@);
    let mut sites: Vec<AttrSite> = Vec::new();
    let mut i: usize = 0;
    while i < n
        invariant
            i <= n,
            items == module_items(text@),
            n == items.len(),
            sites@ == module_sites(items, i as nat),
        decreases n - i,
    {
        let ghost start = sites@;
        match read_fn_attr_count(text, i) {
            Some(count) => {
                let ghost attrs = fn_attrs(text@, i as int)->Some_0;
                let mut j: usize = 0;
                while j < count
                    invariant
                        j <= count,
                        i < n,
                        items == module_items(text@),
                        n == items.len(),
                        fn_attrs(text@, i as int) == Some(attrs),
                        count == attrs.len(),
                        sites@ == start + item_sites(attrs, i as nat, j as nat),
                    decreases count - j,
                {
                    match read_fn_attr(text, i, j) {
                        Some((ident, arguments)) => {
                            let is_syscall = match &ident {
                                Some(name) => *name == String::from_str("syscall"),
                                None => false,
                            };
                            if is_syscall {
                                let meta = match &arguments {
                                    Some(a) => read_attr_meta(a.as_str(), "id"),
                                    None => AttrMeta::Unparsable,
                                };
                                let site = AttrSite { item: i, attr: j, meta };
                                proof {
                                    assert(start + item_sites(attrs, i as nat, j as nat).push(site) =~= (start + item_sites(attrs, i as nat, j as nat)).push(site));
                                }
                                sites.push(site);
                            }
                        },
                        None => {},
                    }
                    j = j + 1;
                }
            },
            None => {
                assert(start + Seq::<AttrSite>::empty() =~= start);
            },
        }
        i = i + 1;
    }
    sites
}

/// What `#[syscall_registry]` with arguments `arguments` makes of the module written as
/// `text`: the handlers to register in order, or why it refuses the module.
pub fn plan_registry_module(arguments: &str, text: &str) -> (r: core::result::Result<Vec<Registration>, RegistryModuleError>)
    ensures
        match r {
            Ok(regs) => spec_plan_registry_module(arguments@, text@) == core::result::Result::<Seq<Registration>, RegistryModuleError>::Ok(regs@),
            Err(e) => spec_plan_registry_module(arguments@, text@) == core::result::Result::<Seq<Registration>, RegistryModuleError>::Err(e),
        },
{
    if !arguments.is_empty() {
        return Err(RegistryModuleError::TakesNoArguments);
    }
    match read_module_shape(text) {
        ModuleShape::Unparsable => Err(RegistryModuleError::Unparsable),
        ModuleShape::NotInline => Err(RegistryModuleError::NotInline),
        ModuleShape::Inline(n) => {
            let sites = registry_sites(text, n);
            match plan_registry(&sites) {
                Ok(regs) => Ok(regs),
                Err(e) => {
                    proof {
                        lemma_plan_registry_error_site(sites@, sites@.len());
                    }
                    match e {
                        RegistryError::Attr { site, error } => Err(RegistryModuleError::Attr { site: sites[site], error }),
                        RegistryError::Duplicate { site, id } => Err(RegistryModuleError::Duplicate { site: sites[site], id }),
                    }
                },
            }
        },
    }
}

/// A registry module that is accepted registers each syscall number at most once.
pub proof fn lemma_registry_module_distinct(arguments: Seq<char>, text: Seq<char>)
    requires
        spec_plan_registry_module(arguments, text) is Ok,
    ensures
        ({
            let regs = spec_plan_registry_module(arguments, text)->Ok_0;
            forall|i: int, j: int| 0 <= i < j < regs.len() ==> regs[i].id != regs[j].id
        }),
{
    let items = module_items(text);
    let sites = module_sites(items, items.len());
    lemma_plan_registry_distinct(sites);
}

/// A module whose `#[syscall(..)]` attributes each give a syscall number, no two the same, is
/// accepted, and each attribute registers its function under its number, in source order.
pub proof fn lemma_plan_registry_accepts(sites: Seq<AttrSite>)
    requires
        forall|i: int| 0 <= i < sites.len() ==> (#[trigger] spec_parse_syscall_id(sites[i].meta)) is Ok,
        forall|i: int, j: int| 0 <= i < j < sites.len() ==> spec_parse_syscall_id(sites[i].meta)->Ok_0 != spec_parse_syscall_id(sites[j].meta)->Ok_0,
    ensures
        spec_plan_registry(sites, sites.len()) == core::result::Result::<Seq<Registration>, RegistryError>::Ok(
            Seq::new(sites.len(), |i: int| Registration { item: sites[i].item, id: spec_parse_syscall_id(sites[i].meta)->Ok_0 }),
        ),
{
    lemma_accepts_upto(sites, sites.len());
}

proof fn lemma_accepts_upto(sites: Seq<AttrSite>, n: nat)
    requires
        n <= sites.len(),
        forall|i: int| 0 <= i < sites.len() ==> (#[trigger] spec_parse_syscall_id(sites[i].meta)) is Ok,
        forall|i: int, j: int| 0 <= i < j < sites.len() ==> spec_parse_syscall_id(sites[i].meta)->Ok_0 != spec_parse_syscall_id(sites[j].meta)->Ok_0,
    ensures
        spec_plan_registry(sites, n) == core::result::Result::<Seq<Registration>, RegistryError>::Ok(
            Seq::new(n, |i: int| Registration { item: sites[i].item, id: spec_parse_syscall_id(sites[i].meta)->Ok_0 }),
        ),
    decreases n,
{
    let expected = Seq::new(n, |i: int| Registration { item: sites[i].item, id: spec_parse_syscall_id(sites[i].meta)->Ok_0 });
    if n > 0 {
        lemma_accepts_upto(sites, (n - 1) as nat);
        let prev = Seq::new((n - 1) as nat, |i: int| Registration { item: sites[i].item, id: spec_parse_syscall_id(sites[i].meta)->Ok_0 });
        let k = n - 1;
        assert(spec_parse_syscall_id(sites[k].meta) is Ok);
        let id = spec_parse_syscall_id(sites[k].meta)->Ok_0;
        assert(!registers_id(prev, id)) by {
            if registers_id(prev, id) {
                let m = choose|m: int| 0 <= m < prev.len() && (#[trigger] prev[m]).id == id;
                assert(spec_parse_syscall_id(sites[m].meta)->Ok_0 != spec_parse_syscall_id(sites[k].meta)->Ok_0);
            }
        }
        assert(prev.push(Registration { item: sites[k].item, id }) =~= expected);
    } else {
        assert(expected =~= Seq::<Registration>::empty());
    }
}

} // verus!
