//! System call numbers, handlers and registries.
use vstd::prelude::*;
use core::marker::PhantomData;
use std::rc::Rc;
use crate::error::{Error, Result};

verus! {

/// Maximum number of syscall handlers supported by libriscv.
pub const SYSCALLS_MAX: u32 = 512;

/// A validated syscall index: always below [`SYSCALLS_MAX`].
#[derive(Debug, Clone, Copy, PartialEq, Eq, Hash, Structural)]
pub struct SyscallId(u32);

impl View for SyscallId {
    type V = u32;

    closed spec fn view(&self) -> u32 {
        self.0
    }
}

impl SyscallId {
    #[verifier::type_invariant]
    closed spec fn below_max(self) -> bool {
        self.0 < SYSCALLS_MAX
    }

    /// Validate and construct a syscall index.
    pub fn new(index: u32) -> (r: Result<Self>)
        ensures
            index < SYSCALLS_MAX ==> (r matches Ok(id) && id@ == index),
            index >= SYSCALLS_MAX ==> r == Err::<SyscallId, Error>(
                Error::InvalidSyscallIndex {
                    index: index as usize,
                    max: (SYSCALLS_MAX - 1) as usize,
                },
            ),
    {
        if index < SYSCALLS_MAX {
            Ok(SyscallId(index))
        } else {
            Err(Error::InvalidSyscallIndex { index: index as usize, max: (SYSCALLS_MAX - 1) as usize })
        }
    }

    /// Validate and construct a syscall index from a `usize`.
    fn from_usize(value: usize) -> (r: Result<Self>)
        ensures
            value < SYSCALLS_MAX ==> (r matches Ok(id) && id@ == value),
            value >= SYSCALLS_MAX ==> r == Err::<SyscallId, Error>(
                Error::InvalidSyscallIndex { index: value, max: (SYSCALLS_MAX - 1) as usize },
            ),
    {
        if value > u32::MAX as usize {
            return Err(Error::InvalidSyscallIndex { index: value, max: (SYSCALLS_MAX - 1) as usize });
        }
        Self::new(value as u32)
    }

    /// Return the raw syscall index.
    pub fn get(self) -> (index: u32)
        ensures
            index == self@,
            index < SYSCALLS_MAX,
        no_unwind
    {
        proof {
            use_type_invariant(self);
        }
        self.0
    }
}

impl TryFrom<u32> for SyscallId {
    type Error = Error;

    fn try_from(value: u32) -> (r: Result<Self>) {
        Self::new(value)
    }
}

impl TryFrom<usize> for SyscallId {
    type Error = Error;

    fn try_from(value: usize) -> (r: Result<Self>) {
        Self::from_usize(value)
    }
}

impl vstd::std_specs::convert::TryFromSpecImpl<u32> for SyscallId {
    open spec fn obeys_try_from_spec() -> bool {
        true
    }

    closed spec fn try_from_spec(v: u32) -> Result<Self> {
        if v < SYSCALLS_MAX {
            Ok(SyscallId(v))
        } else {
            Err(Error::InvalidSyscallIndex { index: v as usize, max: (SYSCALLS_MAX - 1) as usize })
        }
    }
}

impl vstd::std_specs::convert::TryFromSpecImpl<usize> for SyscallId {
    open spec fn obeys_try_from_spec() -> bool {
        true
    }

    closed spec fn try_from_spec(v: usize) -> Result<Self> {
        if v < SYSCALLS_MAX {
            Ok(SyscallId(v as u32))
        } else {
            Err(Error::InvalidSyscallIndex { index: v, max: (SYSCALLS_MAX - 1) as usize })
        }
    }
}

/// `SyscallId::try_from` accepts exactly the indices below [`SYSCALLS_MAX`], from a `u32` or
/// a `usize`, and keeps the index.
pub proof fn lemma_try_from(v: u32, w: usize)
    ensures
        v < SYSCALLS_MAX ==> (<SyscallId as vstd::std_specs::convert::TryFromSpec<u32>>::try_from_spec(v) matches Ok(id) && id@ == v),
        v >= SYSCALLS_MAX ==> <SyscallId as vstd::std_specs::convert::TryFromSpec<u32>>::try_from_spec(v) == Err::<SyscallId, Error>(
            Error::InvalidSyscallIndex { index: v as usize, max: (SYSCALLS_MAX - 1) as usize },
        ),
        w < SYSCALLS_MAX ==> (<SyscallId as vstd::std_specs::convert::TryFromSpec<usize>>::try_from_spec(w) matches Ok(id) && id@ == w),
        w >= SYSCALLS_MAX ==> <SyscallId as vstd::std_specs::convert::TryFromSpec<usize>>::try_from_spec(w) == Err::<SyscallId, Error>(
            Error::InvalidSyscallIndex { index: w, max: (SYSCALLS_MAX - 1) as usize },
        ),
{
}

/// Two syscall ids are equal exactly when they hold the same index.
pub proof fn lemma_id_determined_by_index(a: SyscallId, b: SyscallId)
    ensures
        (a@ == b@) <==> (a == b),
{
}

/// The conversions agree: for an id (one that `new` gives), `u32::from` gives its index, and
/// `try_from` of that index, as a `u32` or as a `usize`, gives the same id back.
pub proof fn lemma_conversions_agree(id: SyscallId)
    requires
        id@ < SYSCALLS_MAX,
    ensures
        <SyscallId as vstd::std_specs::convert::TryFromSpec<u32>>::try_from_spec(id@) == Ok::<SyscallId, Error>(id),
        <SyscallId as vstd::std_specs::convert::TryFromSpec<usize>>::try_from_spec(id@ as usize) == Ok::<SyscallId, Error>(id),
        <u32 as vstd::std_specs::convert::FromSpec<SyscallId>>::from_spec(id) == id@,
{
}

impl From<SyscallId> for u32 {
    fn from(value: SyscallId) -> (r: u32) {
        value.get()
    }
}

impl vstd::std_specs::convert::FromSpecImpl<SyscallId> for u32 {
    open spec fn obeys_from_spec() -> bool {
        true
    }

    open spec fn from_spec(v: SyscallId) -> u32 {
        v@
    }
}

/// A syscall handler as libriscv receives it.
///
/// It holds the handle of a host function `extern "C" fn(*mut RISCVMachine)`, issued by the
/// code that keeps those functions; 0 stands for "no handler", and a handle that names no
/// function is treated as 0. A registered handler is global and affects all machines.
#[derive(Debug, Clone, Copy, PartialEq, Eq, Structural)]
pub struct SyscallHandler(pub usize);

impl SyscallHandler {
    /// Clear any previously registered handler.
    pub fn clear() -> (h: Self)
        ensures
            h.0 == 0,
    {
        SyscallHandler(0)
    }

    /// The handler with handle `handle`.
    pub fn new(handle: usize) -> (h: Self)
        ensures
            h.0 == handle,
    {
        SyscallHandler(handle)
    }
}

/// Output handling for callback handlers.
pub trait SyscallHandlerOutput {
    /// Convert a handler return value into its side effects.
    fn handle(self);
}

impl SyscallHandlerOutput for () {
    fn handle(self) {
    }
}

/// Result wrapper for syscall handlers.
pub struct SyscallResult<T>(pub Result<T>);

impl<T> From<Result<T>> for SyscallResult<T> {
    /// Wrap a `Result` so the handler can decide how to handle it.
    fn from(value: Result<T>) -> (r: Self) {
        SyscallResult(value)
    }
}

impl<T> vstd::std_specs::convert::FromSpecImpl<Result<T>> for SyscallResult<T> {
    open spec fn obeys_from_spec() -> bool {
        true
    }

    open spec fn from_spec(v: Result<T>) -> Self {
        SyscallResult(v)
    }
}

impl<T> SyscallHandlerOutput for SyscallResult<T> {
    fn handle(self) {
        let _ = self.0;
    }
}

/// A table of syscall handlers, one slot per syscall index. It stays on the thread that
/// made it.
pub struct SyscallRegistryBuilder {
    slots: Vec<SyscallHandler>,
    _not_send_sync: PhantomData<Rc<()>>,
}

/// A finished table of syscall handlers, one slot per syscall index.
pub struct SyscallRegistry {
    slots: Vec<SyscallHandler>,
}

/// A table with every slot empty.
pub open spec fn empty_slots() -> Seq<usize> {
    Seq::new(SYSCALLS_MAX as nat, |i: int| 0usize)
}

fn empty_table() -> (slots: Vec<SyscallHandler>)
    ensures
        slots@.len() == SYSCALLS_MAX,
        forall|i: int| 0 <= i < SYSCALLS_MAX ==> #[trigger] slots@[i].0 == 0,
{
    let mut slots: Vec<SyscallHandler> = Vec::new();
    let mut i: u32 = 0;
    while i < SYSCALLS_MAX
        invariant
            i <= SYSCALLS_MAX,
            slots@.len() == i,
            forall|j: int| 0 <= j < i ==> #[trigger] slots@[j].0 == 0,
        decreases SYSCALLS_MAX - i,
    {
        slots.push(SyscallHandler::clear());
        i = i + 1;
    }
    slots
}

impl View for SyscallRegistryBuilder {
    /// The handler handle held for each syscall index.
    type V = Seq<usize>;

    closed spec fn view(&self) -> Seq<usize> {
        self.slots@.map_values(|h: SyscallHandler| h.0)
    }
}

impl View for SyscallRegistry {
    /// The handler handle held for each syscall index.
    type V = Seq<usize>;

    closed spec fn view(&self) -> Seq<usize> {
        self.slots@.map_values(|h: SyscallHandler| h.0)
    }
}

impl SyscallRegistryBuilder {
    #[verifier::type_invariant]
    closed spec fn one_slot_per_index(self) -> bool {
        self.slots@.len() == SYSCALLS_MAX
    }

    /// A builder with no handler registered.
    pub fn new() -> (b: Self)
        ensures
            b@ == empty_slots(),
    {
        let b = SyscallRegistryBuilder { slots: empty_table(), _not_send_sync: PhantomData };
        assert(b@ =~= empty_slots());
        b
    }

    /// Registers `handler` for syscall `id`, replacing what was registered for it before.
    pub fn register(&mut self, id: SyscallId, handler: SyscallHandler) -> (r: Result<()>)
        ensures
            r is Ok,
            final(self)@ == old(self)@.update(id@ as int, handler.0),
            final(self)@.len() == SYSCALLS_MAX,
        no_unwind
    {
        proof {
            use_type_invariant(&*self);
            use_type_invariant(id);
        }
        let index: usize = id.get() as usize;
        self.slots[index] = handler;
        assert(self@ =~= old(self)@.update(id@ as int, handler.0));
        Ok(())
    }

    /// The finished registry, with the handlers registered so far.
    pub fn build(self) -> (r: SyscallRegistry)
        ensures
            r@ == self@,
            r@.len() == SYSCALLS_MAX,
    {
        proof {
            use_type_invariant(&self);
        }
        SyscallRegistry { slots: self.slots }
    }
}

impl SyscallRegistry {
    #[verifier::type_invariant]
    closed spec fn one_slot_per_index(self) -> bool {
        self.slots@.len() == SYSCALLS_MAX
    }

    /// A registry with no handler.
    pub fn empty() -> (r: Self)
        ensures
            r@ == empty_slots(),
    {
        let r = SyscallRegistry { slots: empty_table() };
        assert(r@ =~= empty_slots());
        r
    }

    /// The handler registered for syscall `id` (the cleared handler where there is none).
    pub fn handler(&self, id: SyscallId) -> (h: SyscallHandler)
        ensures
            h.0 == self@[id@ as int],
    {
        proof {
            use_type_invariant(self);
            use_type_invariant(id);
        }
        self.slots[id.get() as usize]
    }
}

/// Registering a handler for a syscall, building the registry and looking that syscall up
/// gives the handler; every other syscall keeps what the builder held for it. `after` is the
/// builder once `register(id, handler)` returned, `registry` what `build` made of it.
pub proof fn lemma_register_then_lookup(
    before: SyscallRegistryBuilder,
    after: SyscallRegistryBuilder,
    registry: SyscallRegistry,
    id: SyscallId,
    handler: SyscallHandler,
    other: SyscallId,
)
    requires
        before@.len() == SYSCALLS_MAX,
        id@ < SYSCALLS_MAX,
        other@ < SYSCALLS_MAX,
        after@ == before@.update(id@ as int, handler.0),
        registry@ == after@,
    ensures
        registry@.len() == SYSCALLS_MAX,
        registry@[id@ as int] == handler.0,
        other@ != id@ ==> registry@[other@ as int] == before@[other@ as int],
{
}

} // verus!
