//! Machine options and the builder that validates them.
use vstd::prelude::*;
use vstd::utf8::encode_utf8;
use crate::callbacks::{ErrorHandler, StdoutHandler};
use crate::error::{find_nul, first_nul, Error, NulError, Result};

verus! {

/// The values that a machine's options record receives.
///
/// A field left `None` keeps the value that libriscv's own defaults give it; flags are C
/// `int`s, 1 for true and 0 for false. The callbacks and the opaque user pointer start cleared.
#[derive(Debug, Clone, Copy)]
pub struct RawOptions {
    pub max_memory: Option<u64>,
    pub stack_size: Option<u32>,
    pub strict_sandbox: Option<i32>,
    pub use_memory_arena: Option<i32>,
    pub use_shared_execute_segments: Option<i32>,
    pub load_program: Option<i32>,
    pub protect_segments: Option<i32>,
    pub native_syscall_base: Option<u32>,
    pub arena_size: Option<u64>,
    pub error: ErrorHandler,
    pub stdout: StdoutHandler,
    pub opaque: usize,
}

/// libriscv's defaults with no callback, no user pointer and no arguments.
pub open spec fn default_raw() -> RawOptions {
    RawOptions {
        max_memory: None,
        stack_size: None,
        strict_sandbox: None,
        use_memory_arena: None,
        use_shared_execute_segments: None,
        load_program: None,
        protect_segments: None,
        native_syscall_base: None,
        arena_size: None,
        error: ErrorHandler(0),
        stdout: StdoutHandler(0),
        opaque: 0,
    }
}

impl RawOptions {
    /// libriscv's defaults with no callback and no user pointer.
    pub fn new() -> (r: Self)
        ensures
            r == default_raw(),
    {
        RawOptions {
            max_memory: None,
            stack_size: None,
            strict_sandbox: None,
            use_memory_arena: None,
            use_shared_execute_segments: None,
            load_program: None,
            protect_segments: None,
            native_syscall_base: None,
            arena_size: None,
            error: ErrorHandler::clear(),
            stdout: StdoutHandler::clear(),
            opaque: 0,
        }
    }
}

/// The numeric fields of libriscv's options record.
#[derive(Debug, Clone, Copy, PartialEq, Eq, Structural)]
pub struct OptionValues {
    pub max_memory: u64,
    pub stack_size: u32,
    pub strict_sandbox: i32,
    pub use_memory_arena: i32,
    pub use_shared_execute_segments: i32,
    pub load_program: i32,
    pub protect_segments: i32,
    pub native_syscall_base: u32,
    pub arena_size: u64,
}

/// A value that was set, or else the default.
pub open spec fn or_default<T>(value: Option<T>, default: T) -> T {
    match value {
        Some(v) => v,
        None => default,
    }
}

/// The record's numeric fields once the values that were set replace libriscv's defaults.
pub open spec fn spec_applied_to(raw: RawOptions, defaults: OptionValues) -> OptionValues {
    OptionValues {
        max_memory: or_default(raw.max_memory, defaults.max_memory),
        stack_size: or_default(raw.stack_size, defaults.stack_size),
        strict_sandbox: or_default(raw.strict_sandbox, defaults.strict_sandbox),
        use_memory_arena: or_default(raw.use_memory_arena, defaults.use_memory_arena),
        use_shared_execute_segments: or_default(raw.use_shared_execute_segments, defaults.use_shared_execute_segments),
        load_program: or_default(raw.load_program, defaults.load_program),
        protect_segments: or_default(raw.protect_segments, defaults.protect_segments),
        native_syscall_base: or_default(raw.native_syscall_base, defaults.native_syscall_base),
        arena_size: or_default(raw.arena_size, defaults.arena_size),
    }
}

fn pick_u64(value: Option<u64>, default: u64) -> (r: u64)
    ensures
        r == or_default(value, default),
{
    match value {
        Some(v) => v,
        None => default,
    }
}

fn pick_u32(value: Option<u32>, default: u32) -> (r: u32)
    ensures
        r == or_default(value, default),
{
    match value {
        Some(v) => v,
        None => default,
    }
}

fn pick_i32(value: Option<i32>, default: i32) -> (r: i32)
    ensures
        r == or_default(value, default),
{
    match value {
        Some(v) => v,
        None => default,
    }
}

impl RawOptions {
    /// The record's numeric fields: each value that was set, and libriscv's default (as
    /// `libriscv_set_defaults` wrote it into `defaults`) for each one that was not.
    pub fn applied_to(&self, defaults: OptionValues) -> (v: OptionValues)
        ensures
            v == spec_applied_to(*self, defaults),
    {
        OptionValues {
            max_memory: pick_u64(self.max_memory, defaults.max_memory),
            stack_size: pick_u32(self.stack_size, defaults.stack_size),
            strict_sandbox: pick_i32(self.strict_sandbox, defaults.strict_sandbox),
            use_memory_arena: pick_i32(self.use_memory_arena, defaults.use_memory_arena),
            use_shared_execute_segments: pick_i32(self.use_shared_execute_segments, defaults.use_shared_execute_segments),
            load_program: pick_i32(self.load_program, defaults.load_program),
            protect_segments: pick_i32(self.protect_segments, defaults.protect_segments),
            native_syscall_base: pick_u32(self.native_syscall_base, defaults.native_syscall_base),
            arena_size: pick_u64(self.arena_size, defaults.arena_size),
        }
    }
}

/// Applying options over libriscv's defaults: every field that was set takes the value set,
/// and every field that was not keeps its default, each field by its own name.
pub proof fn lemma_set_fields_replace_defaults(raw: RawOptions, defaults: OptionValues)
    ensures
        ({
            let v = spec_applied_to(raw, defaults);
            &&& (match raw.max_memory { Some(x) => v.max_memory == x, None => v.max_memory == defaults.max_memory })
            &&& (match raw.stack_size { Some(x) => v.stack_size == x, None => v.stack_size == defaults.stack_size })
            &&& (match raw.strict_sandbox { Some(x) => v.strict_sandbox == x, None => v.strict_sandbox == defaults.strict_sandbox })
            &&& (match raw.use_memory_arena { Some(x) => v.use_memory_arena == x, None => v.use_memory_arena == defaults.use_memory_arena })
            &&& (match raw.use_shared_execute_segments {
                Some(x) => v.use_shared_execute_segments == x,
                None => v.use_shared_execute_segments == defaults.use_shared_execute_segments,
            })
            &&& (match raw.load_program { Some(x) => v.load_program == x, None => v.load_program == defaults.load_program })
            &&& (match raw.protect_segments { Some(x) => v.protect_segments == x, None => v.protect_segments == defaults.protect_segments })
            &&& (match raw.native_syscall_base {
                Some(x) => v.native_syscall_base == x,
                None => v.native_syscall_base == defaults.native_syscall_base,
            })
            &&& (match raw.arena_size { Some(x) => v.arena_size == x, None => v.arena_size == defaults.arena_size })
        }),
{
}

/// Options that set nothing leave every default as it is.
pub proof fn lemma_defaults_kept(defaults: OptionValues)
    ensures
        spec_applied_to(default_raw(), defaults) == defaults,
{
}

/// What a set of options holds: the record's values, the program arguments and the default
/// exit function's symbol.
pub struct OptionsModel {
    pub raw: RawOptions,
    pub args: Seq<Seq<char>>,
    pub default_exit_function: Option<Seq<char>>,
}

/// Options with libriscv's defaults, no arguments and no exit function.
pub open spec fn default_model() -> OptionsModel {
    OptionsModel { raw: default_raw(), args: Seq::empty(), default_exit_function: None }
}

/// The bytes that a C string made of `s` holds (its UTF-8 encoding).
pub open spec fn c_bytes(s: Seq<char>) -> Seq<u8> {
    encode_utf8(s)
}

/// Whether `s` cannot become a C string.
#[verifier::opaque]
pub open spec fn has_nul(s: Seq<char>) -> bool {
    first_nul(c_bytes(s)) is Some
}

/// Why options cannot be built.
pub enum BuildFailure {
    /// More arguments than a C `unsigned int` counts.
    TooManyArgs(nat),
    /// A string holds a NUL byte at this position of these bytes.
    InteriorNul(nat, Seq<u8>),
}

/// The failure for string `s`, which holds a NUL byte.
pub open spec fn nul_failure(s: Seq<char>) -> BuildFailure {
    BuildFailure::InteriorNul(first_nul(c_bytes(s))->0, c_bytes(s))
}

/// The first argument at or after `start` that holds a NUL byte, if any.
pub open spec fn first_arg_with_nul_from(args: Seq<Seq<char>>, start: nat) -> Option<nat>
    decreases args.len() - start,
{
    if start >= args.len() {
        None
    } else if has_nul(args[start as int]) {
        Some(start)
    } else {
        first_arg_with_nul_from(args, start + 1)
    }
}

/// The first argument that holds a NUL byte, if any.
pub open spec fn first_arg_with_nul(args: Seq<Seq<char>>) -> Option<nat> {
    first_arg_with_nul_from(args, 0)
}

proof fn lemma_first_arg_with_nul_from(args: Seq<Seq<char>>, start: nat)
    ensures
        match first_arg_with_nul_from(args, start) {
            Some(k) => start <= k < args.len() && has_nul(args[k as int]),
            None => forall|j: int| start <= j < args.len() ==> !has_nul(#[trigger] args[j]),
        },
    decreases args.len() - start,
{
    if start < args.len() && !has_nul(args[start as int]) {
        lemma_first_arg_with_nul_from(args, start + 1);
    }
}

/// Why options with this content cannot be built, checked in order: the argument count, each
/// argument, then the exit function's symbol. `None` where they can be built.
pub open spec fn build_failure(m: OptionsModel) -> Option<BuildFailure> {
    if m.args.len() > u32::MAX {
        Some(BuildFailure::TooManyArgs(m.args.len()))
    } else if first_arg_with_nul(m.args) is Some {
        Some(nul_failure(m.args[first_arg_with_nul(m.args)->0 as int]))
    } else if m.default_exit_function matches Some(f) && has_nul(f) {
        Some(nul_failure(m.default_exit_function->0))
    } else {
        None
    }
}

/// Options can be built exactly when there are at most `u32::MAX` arguments and neither an
/// argument nor the exit function's symbol holds a NUL byte.
pub proof fn lemma_buildable_iff(m: OptionsModel)
    ensures
        build_failure(m) is None <==> {
            &&& m.args.len() <= u32::MAX
            &&& forall|i: int| 0 <= i < m.args.len() ==> !has_nul(#[trigger] m.args[i])
            &&& !(m.default_exit_function matches Some(f) && has_nul(f))
        },
{
    lemma_first_arg_with_nul_from(m.args, 0);
}

/// A fresh builder builds: `Options::builder().build()` succeeds with libriscv's defaults.
pub proof fn lemma_default_builds()
    ensures
        build_failure(default_model()) is None,
{
    lemma_buildable_iff(default_model());
}

/// Configuration for creating a RISC-V machine: options that passed [`OptionsBuilder::build`].
pub struct Options {
    raw: RawOptions,
    args: Vec<String>,
    default_exit_function: Option<String>,
}

/// Builder for [`Options`].
pub struct OptionsBuilder {
    raw: RawOptions,
    args: Vec<String>,
    default_exit_function: Option<String>,
}

/// The view of a list of strings.
pub open spec fn strings_view(v: Seq<String>) -> Seq<Seq<char>> {
    v.map_values(|s: String| s@)
}

/// The view of an optional string.
pub open spec fn optional_string_view(s: Option<String>) -> Option<Seq<char>> {
    match s {
        Some(s) => Some(s@),
        None => None,
    }
}

impl View for Options {
    type V = OptionsModel;

    closed spec fn view(&self) -> OptionsModel {
        OptionsModel {
            raw: self.raw,
            args: strings_view(self.args@),
            default_exit_function: optional_string_view(self.default_exit_function),
        }
    }
}

impl View for OptionsBuilder {
    type V = OptionsModel;

    closed spec fn view(&self) -> OptionsModel {
        OptionsModel {
            raw: self.raw,
            args: strings_view(self.args@),
            default_exit_function: optional_string_view(self.default_exit_function),
        }
    }
}

impl Options {
    #[verifier::type_invariant]
    closed spec fn buildable(self) -> bool {
        build_failure(self@) is None
    }

    /// Create options initialized with libriscv defaults.
    pub fn new() -> (o: Self)
        ensures
            o@ == default_model(),
    {
        let o = Options { raw: RawOptions::new(), args: Vec::new(), default_exit_function: None };
        assert(o@.args =~= Seq::<Seq<char>>::empty());
        assert(first_arg_with_nul(o@.args) is None);
        o
    }

    /// Start building a validated options struct.
    pub fn builder() -> (b: OptionsBuilder)
        ensures
            b@ == default_model(),
    {
        OptionsBuilder::new()
    }

    /// The values for libriscv's options record.
    pub fn raw(&self) -> (r: RawOptions)
        ensures
            r == self@.raw,
    {
        self.raw
    }

    /// The program arguments: each one free of NUL bytes, and at most `u32::MAX` of them.
    pub fn args(&self) -> (a: &Vec<String>)
        ensures
            strings_view(a@) == self@.args,
            a@.len() <= u32::MAX,
            forall|i: int| 0 <= i < a@.len() ==> !has_nul(#[trigger] a@[i]@),
    {
        proof {
            use_type_invariant(self);
            lemma_buildable_iff(self@);
            assert forall|i: int| 0 <= i < self.args@.len() implies !has_nul(#[trigger] self.args@[i]@) by {
                assert(self@.args[i] == self.args@[i]@);
            }
        }
        &self.args
    }

    /// The number of program arguments, as libriscv's `argc`.
    pub fn argc(&self) -> (n: u32)
        ensures
            n == self@.args.len(),
    {
        proof {
            use_type_invariant(self);
        }
        self.args.len() as u32
    }

    /// The default exit function's symbol, free of NUL bytes.
    pub fn default_exit_function(&self) -> (f: Option<&String>)
        ensures
            match f {
                Some(s) => self@.default_exit_function == Some(s@) && !has_nul(s@),
                None => self@.default_exit_function is None,
            },
    {
        proof {
            use_type_invariant(self);
        }
        self.default_exit_function.as_ref()
    }
}

impl Default for Options {
    fn default() -> (o: Self)
        ensures
            o@ == default_model(),
    {
        Options::new()
    }
}

impl OptionsBuilder {
    /// Create a builder initialized with libriscv defaults.
    pub fn new() -> (b: Self)
        ensures
            b@ == default_model(),
    {
        let b = OptionsBuilder { raw: RawOptions::new(), args: Vec::new(), default_exit_function: None };
        assert(b@.args =~= Seq::<Seq<char>>::empty());
        b
    }

    pub fn max_memory(self, bytes: u64) -> (b: Self)
        ensures
            b@ == (OptionsModel { raw: RawOptions { max_memory: Some(bytes), ..self@.raw }, ..self@ }),
    {
        let mut b = self;
        b.raw.max_memory = Some(bytes);
        b
    }

    pub fn stack_size(self, bytes: u32) -> (b: Self)
        ensures
            b@ == (OptionsModel { raw: RawOptions { stack_size: Some(bytes), ..self@.raw }, ..self@ }),
    {
        let mut b = self;
        b.raw.stack_size = Some(bytes);
        b
    }

    pub fn strict_sandbox(self, strict: bool) -> (b: Self)
        ensures
            b@ == (OptionsModel {
                raw: RawOptions { strict_sandbox: Some(if strict { 1i32 } else { 0i32 }), ..self@.raw },
                ..self@
            }),
    {
        let mut b = self;
        b.raw.strict_sandbox = Some(if strict { 1 } else { 0 });
        b
    }

    pub fn use_memory_arena(self, enabled: bool) -> (b: Self)
        ensures
            b@ == (OptionsModel {
                raw: RawOptions { use_memory_arena: Some(if enabled { 1i32 } else { 0i32 }), ..self@.raw },
                ..self@
            }),
    {
        let mut b = self;
        b.raw.use_memory_arena = Some(if enabled { 1 } else { 0 });
        b
    }

    pub fn use_shared_execute_segments(self, enabled: bool) -> (b: Self)
        ensures
            b@ == (OptionsModel {
                raw: RawOptions {
                    use_shared_execute_segments: Some(if enabled { 1i32 } else { 0i32 }),
                    ..self@.raw
                },
                ..self@
            }),
    {
        let mut b = self;
        b.raw.use_shared_execute_segments = Some(if enabled { 1 } else { 0 });
        b
    }

    pub fn default_exit_function(self, symbol: &str) -> (b: Self)
        ensures
            b@ == (OptionsModel { default_exit_function: Some(symbol@), ..self@ }),
    {
        let mut b = self;
        b.default_exit_function = Some(String::from_str(symbol));
        b
    }

    pub fn clear_default_exit_function(self) -> (b: Self)
        ensures
            b@ == (OptionsModel { default_exit_function: None, ..self@ }),
    {
        let mut b = self;
        b.default_exit_function = None;
        b
    }

    pub fn load_program(self, enabled: bool) -> (b: Self)
        ensures
            b@ == (OptionsModel {
                raw: RawOptions { load_program: Some(if enabled { 1i32 } else { 0i32 }), ..self@.raw },
                ..self@
            }),
    {
        let mut b = self;
        b.raw.load_program = Some(if enabled { 1 } else { 0 });
        b
    }

    pub fn protect_segments(self, enabled: bool) -> (b: Self)
        ensures
            b@ == (OptionsModel {
                raw: RawOptions { protect_segments: Some(if enabled { 1i32 } else { 0i32 }), ..self@.raw },
                ..self@
            }),
    {
        let mut b = self;
        b.raw.protect_segments = Some(if enabled { 1 } else { 0 });
        b
    }

    pub fn native_syscall_base(self, base: u32) -> (b: Self)
        ensures
            b@ == (OptionsModel { raw: RawOptions { native_syscall_base: Some(base), ..self@.raw }, ..self@ }),
    {
        let mut b = self;
        b.raw.native_syscall_base = Some(base);
        b
    }

    pub fn arena_size(self, bytes: u64) -> (b: Self)
        ensures
            b@ == (OptionsModel { raw: RawOptions { arena_size: Some(bytes), ..self@.raw }, ..self@ }),
    {
        let mut b = self;
        b.raw.arena_size = Some(bytes);
        b
    }

    /// Replaces the program arguments.
    pub fn args(self, args: Vec<String>) -> (b: Self)
        ensures
            b@ == (OptionsModel { args: strings_view(args@), ..self@ }),
    {
        let mut b = self;
        b.args = args;
        b
    }

    pub fn clear_args(self) -> (b: Self)
        ensures
            b@ == (OptionsModel { args: Seq::empty(), ..self@ }),
    {
        let mut b = self;
        b.args.clear();
        assert(strings_view(b.args@) =~= Seq::<Seq<char>>::empty());
        b
    }

    pub fn error_handler(self, handler: ErrorHandler) -> (b: Self)
        ensures
            b@ == (OptionsModel { raw: RawOptions { error: handler, ..self@.raw }, ..self@ }),
    {
        let mut b = self;
        b.raw.error = handler;
        b
    }

    pub fn stdout_handler(self, handler: StdoutHandler) -> (b: Self)
        ensures
            b@ == (OptionsModel { raw: RawOptions { stdout: handler, ..self@.raw }, ..self@ }),
    {
        let mut b = self;
        b.raw.stdout = handler;
        b
    }

    /// The user pointer (as an address) that libriscv hands back to the callbacks.
    pub fn opaque(self, opaque: usize) -> (b: Self)
        ensures
            b@ == (OptionsModel { raw: RawOptions { opaque, ..self@.raw }, ..self@ }),
    {
        let mut b = self;
        b.raw.opaque = opaque;
        b
    }

    /// Validates the options: the argument count must fit a C `unsigned int`, and no argument
    /// nor the exit function's symbol may hold a NUL byte.
    pub fn build(self) -> (r: Result<Options>)
        ensures
            match build_failure(self@) {
                None => r matches Ok(o) && o@ == self@,
                Some(BuildFailure::TooManyArgs(n)) => r matches Err(Error::ArgsTooLarge(k)) && k == n,
                Some(BuildFailure::InteriorNul(p, bytes)) => r matches Err(Error::NulError(e)) && e@ == (p, bytes),
            },
    {
        let args_len: usize = self.args.len();
        if args_len > u32::MAX as usize {
            return Err(Error::ArgsTooLarge(args_len));
        }
        let mut i: usize = 0;
        while i < args_len
            invariant
                args_len == self.args@.len(),
                args_len <= u32::MAX,
                i <= args_len,
                first_arg_with_nul(self@.args) == first_arg_with_nul_from(self@.args, i as nat),
            decreases args_len - i,
        {
            let bytes = self.args[i].as_str().as_bytes();
            proof {
                reveal(has_nul);
            }
            match find_nul(bytes) {
                Some(position) => {
                    proof {
                        assert(self@.args[i as int] == self.args@[i as int]@);
                    }
                    return Err(Error::NulError(NulError::new(position, vstd::slice::slice_to_vec(bytes))));
                },
                None => {},
            }
            proof {
                assert(self@.args[i as int] == self.args@[i as int]@);
            }
            i = i + 1;
        }
        match &self.default_exit_function {
            Some(symbol) => {
                let bytes = symbol.as_str().as_bytes();
                proof {
                    reveal(has_nul);
                }
                match find_nul(bytes) {
                    Some(position) => {
                        return Err(Error::NulError(NulError::new(position, vstd::slice::slice_to_vec(bytes))));
                    },
                    None => {},
                }
            },
            None => {},
        }
        Ok(Options { raw: self.raw, args: self.args, default_exit_function: self.default_exit_function })
    }
}

impl Default for OptionsBuilder {
    fn default() -> (b: Self)
        ensures
            b@ == default_model(),
    {
        Self::new()
    }
}

} // verus!
