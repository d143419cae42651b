//! Host closures exposed to the foreign runtime as opaque registry handles.
//!
//! Installing a closure claims a registry slot and returns a handle; the
//! foreign runtime later calls back through that handle. The registry tracks
//! each slot through its lifecycle — registered, then released — and
//! enforces the calling discipline: a released handle, a re-entered mutable
//! closure and a re-run once-only closure each fail with their own
//! recoverable error instead of touching freed or aliased state. The
//! closure's captured environment itself lives with the host glue that runs
//! it; this layer owns every decision about whether a call may proceed and
//! how its outcome crosses the boundary.

use vstd::prelude::*;

use crate::error::Error;
use crate::object::{LuaRef, Object};
use crate::value::Value;

verus! {

/// How a closure installed in the registry may be called.
#[allow(missing_docs)]
#[derive(Copy, Clone, Debug, PartialEq, Eq, Structural)]
pub enum ClosureKind {
    /// Callable any number of times, reentrantly.
    Shared,
    /// Callable any number of times, but only one invocation at a time.
    Mutable,
    /// Callable exactly once.
    Once,
}

/// The lifecycle state of one registry slot.
#[derive(Copy, Clone, Debug, PartialEq, Eq, Structural)]
pub enum SlotState {
    /// A closure is installed: `active` while an invocation is on the call
    /// stack, `called` once any invocation has begun.
    Registered { kind: ClosureKind, active: bool, called: bool },
    /// The slot was explicitly released; calling it is an error.
    Released,
}

/// What beginning a call does to a slot: the next state on success, or the
/// reportable error that leaves the slot unchanged.
///
/// A released slot reports a released handle; a once-only closure that has
/// already begun a call reports being called more than once (also when that
/// first call is still running); a mutable closure with an invocation still
/// on the call stack reports a recursive call.
pub open spec fn begin_outcome(s: SlotState) -> Result<SlotState, Error> {
    match s {
        SlotState::Released => Err(Error::HandleReleased),
        SlotState::Registered { kind, active, called } => {
            if kind is Once && called {
                Err(Error::CalledMoreThanOnce)
            } else if kind is Mutable && active {
                Err(Error::RecursiveCall)
            } else {
                Ok(SlotState::Registered { kind, active: true, called: true })
            }
        },
    }
}

/// The foreign runtime's closure registry, one slot per installed closure.
///
/// Its view is the sequence of slot states, indexed by the handles it has
/// handed out.
pub struct ClosureRegistry {
    slots: Vec<SlotState>,
}

impl View for ClosureRegistry {
    type V = Seq<SlotState>;

    closed spec fn view(&self) -> Seq<SlotState> {
        self.slots@
    }
}

impl ClosureRegistry {
    /// Creates a registry with no slots claimed.
    pub fn new() -> (r: Self)
        ensures
            r@ == Seq::<SlotState>::empty(),
    {
        ClosureRegistry { slots: Vec::new() }
    }

    /// Returns how many slots have been handed out, released ones included.
    pub fn len(&self) -> (n: usize)
        ensures
            n == self@.len(),
    {
        self.slots.len()
    }

    /// Installs a closure of the given kind, claiming a fresh slot and
    /// returning its opaque handle.
    pub fn install(&mut self, kind: ClosureKind) -> (slot: LuaRef)
        requires
            old(self)@.len() < i32::MAX,
        ensures
            slot == old(self)@.len(),
            final(self)@ == old(self)@.push(SlotState::Registered {
                kind,
                active: false,
                called: false,
            }),
    {
        let slot = self.slots.len() as i32;
        self.slots.push(SlotState::Registered { kind, active: false, called: false });
        slot
    }

    /// Begins an invocation of the slot's closure: checks the calling
    /// discipline, marks the slot active on success, and reports the
    /// slot-state's error — leaving the slot unchanged — on failure.
    pub fn begin_call(&mut self, slot: LuaRef) -> (r: Result<(), Error>)
        requires
            0 <= slot < old(self)@.len(),
        ensures
            match begin_outcome(old(self)@[slot as int]) {
                Ok(s2) => r is Ok && final(self)@ == old(self)@.update(slot as int, s2),
                Err(e) => (r matches Err(e2) && e2 == e) && final(self)@ == old(self)@,
            },
    {
        let state = self.slots[slot as usize];
        match state {
            SlotState::Released => Err(Error::HandleReleased),
            SlotState::Registered { kind, active, called } => {
                if matches!(kind, ClosureKind::Once) && called {
                    Err(Error::CalledMoreThanOnce)
                } else if matches!(kind, ClosureKind::Mutable) && active {
                    Err(Error::RecursiveCall)
                } else {
                    self.slots.set(
                        slot as usize,
                        SlotState::Registered { kind, active: true, called: true },
                    );
                    Ok(())
                }
            },
        }
    }

    /// Ends the innermost invocation of the slot's closure, clearing the
    /// active mark.
    pub fn end_call(&mut self, slot: LuaRef)
        requires
            0 <= slot < old(self)@.len(),
            old(self)@[slot as int] is Registered,
        ensures
            final(self)@ == old(self)@.update(
                slot as int,
                SlotState::Registered {
                    kind: old(self)@[slot as int]->kind,
                    active: false,
                    called: old(self)@[slot as int]->called,
                },
            ),
    {
        let state = self.slots[slot as usize];
        match state {
            SlotState::Registered { kind, active: _, called } => {
                self.slots.set(
                    slot as usize,
                    SlotState::Registered { kind, active: false, called },
                );
            },
            SlotState::Released => {},
        }
    }

    /// Releases the slot: its closure's capture is torn down and every
    /// later call through the handle reports a released handle. Releasing
    /// an already-released slot changes nothing.
    pub fn release(&mut self, slot: LuaRef)
        requires
            0 <= slot < old(self)@.len(),
        ensures
            final(self)@ == old(self)@.update(slot as int, SlotState::Released),
    {
        self.slots.set(slot as usize, SlotState::Released);
        proof {
            assert(self@ =~= old(self)@.update(slot as int, SlotState::Released));
        }
    }
}

/// The closure-calling discipline, rule by rule: a released handle reports
/// a released handle; a once-only closure whose call has begun reports
/// being called more than once; a mutable closure with an invocation still
/// on the call stack reports a recursive call; and every other registered
/// closure may begin a call.
pub proof fn lemma_calling_discipline(s: SlotState)
    ensures
        s is Released ==> begin_outcome(s) == Err::<SlotState, Error>(Error::HandleReleased),
        (s matches SlotState::Registered { kind: ClosureKind::Once, called: true, .. })
            ==> begin_outcome(s) == Err::<SlotState, Error>(Error::CalledMoreThanOnce),
        (s matches SlotState::Registered { kind: ClosureKind::Mutable, active: true, .. })
            ==> begin_outcome(s) == Err::<SlotState, Error>(Error::RecursiveCall),
        (s matches SlotState::Registered { kind: ClosureKind::Shared, .. })
            ==> begin_outcome(s) is Ok,
        (s matches SlotState::Registered { kind: ClosureKind::Mutable, active: false, .. })
            ==> begin_outcome(s) is Ok,
        (s matches SlotState::Registered { kind: ClosureKind::Once, called: false, .. })
            ==> begin_outcome(s) is Ok,
{
}

/// An opaque handle to a host closure installed in the foreign runtime's
/// registry.
///
/// The wire payload is nothing but the slot reference; the argument and
/// return shapes are compile-time markers and never cross the boundary. The
/// handle stays valid until it is explicitly released, and leaks its
/// registry slot if it never is.
pub struct LuaFun<A, R> {
    luaref: LuaRef,
    args: core::marker::PhantomData<A>,
    ret: core::marker::PhantomData<R>,
}

impl<A, R> View for LuaFun<A, R> {
    type V = LuaRef;

    closed spec fn view(&self) -> LuaRef {
        self.luaref
    }
}

impl<A, R> LuaFun<A, R> {
    /// Installs a reentrant closure, capturing its environment on the host
    /// side, and returns its handle.
    pub fn from_fn(registry: &mut ClosureRegistry) -> (r: Self)
        requires
            old(registry)@.len() < i32::MAX,
        ensures
            r@ == old(registry)@.len(),
            final(registry)@ == old(registry)@.push(SlotState::Registered {
                kind: ClosureKind::Shared,
                active: false,
                called: false,
            }),
    {
        let luaref = registry.install(ClosureKind::Shared);
        LuaFun { luaref, args: core::marker::PhantomData, ret: core::marker::PhantomData }
    }

    /// Installs a closure that mutates its capture: callable repeatedly,
    /// but a recursive re-entry while an invocation is still running is a
    /// reportable error, never an aliased capture.
    pub fn from_fn_mut(registry: &mut ClosureRegistry) -> (r: Self)
        requires
            old(registry)@.len() < i32::MAX,
        ensures
            r@ == old(registry)@.len(),
            final(registry)@ == old(registry)@.push(SlotState::Registered {
                kind: ClosureKind::Mutable,
                active: false,
                called: false,
            }),
    {
        let luaref = registry.install(ClosureKind::Mutable);
        LuaFun { luaref, args: core::marker::PhantomData, ret: core::marker::PhantomData }
    }

    /// Installs a closure that consumes its capture: a second call is a
    /// reportable error, never a re-run over freed state.
    pub fn from_fn_once(registry: &mut ClosureRegistry) -> (r: Self)
        requires
            old(registry)@.len() < i32::MAX,
        ensures
            r@ == old(registry)@.len(),
            final(registry)@ == old(registry)@.push(SlotState::Registered {
                kind: ClosureKind::Once,
                active: false,
                called: false,
            }),
    {
        let luaref = registry.install(ClosureKind::Once);
        LuaFun { luaref, args: core::marker::PhantomData, ret: core::marker::PhantomData }
    }

    /// Wraps an already-assigned slot reference as a handle.
    pub fn from_luaref(luaref: LuaRef) -> (r: Self)
        ensures
            r@ == luaref,
    {
        LuaFun { luaref, args: core::marker::PhantomData, ret: core::marker::PhantomData }
    }

    /// Returns the opaque slot reference this handle wraps.
    pub fn luaref(&self) -> (r: LuaRef)
        ensures
            r == self@,
    {
        self.luaref
    }

    /// Begins an invocation of the handle's closure, enforcing the calling
    /// discipline of the kind it was installed with.
    pub fn begin_call(&self, registry: &mut ClosureRegistry) -> (r: Result<(), Error>)
        requires
            0 <= self@ < old(registry)@.len(),
        ensures
            match begin_outcome(old(registry)@[self@ as int]) {
                Ok(s2) => r is Ok && final(registry)@ == old(registry)@.update(
                    self@ as int,
                    s2,
                ),
                Err(e) => (r matches Err(e2) && e2 == e) && final(registry)@ == old(registry)@,
            },
    {
        registry.begin_call(self.luaref)
    }

    /// Ends the innermost invocation of the handle's closure.
    pub fn end_call(&self, registry: &mut ClosureRegistry)
        requires
            0 <= self@ < old(registry)@.len(),
            old(registry)@[self@ as int] is Registered,
        ensures
            final(registry)@ == old(registry)@.update(
                self@ as int,
                SlotState::Registered {
                    kind: old(registry)@[self@ as int]->kind,
                    active: false,
                    called: old(registry)@[self@ as int]->called,
                },
            ),
    {
        registry.end_call(self.luaref)
    }

    /// Consumes the handle, releasing the registry slot it wraps: the
    /// closure's capture is torn down, and any later call through the same
    /// reference reports a released handle.
    pub fn release(self, registry: &mut ClosureRegistry)
        requires
            0 <= self@ < old(registry)@.len(),
        ensures
            final(registry)@ == old(registry)@.update(self@ as int, SlotState::Released),
    {
        registry.release(self.luaref)
    }
}

impl<A, R> Clone for LuaFun<A, R> {
    /// Cloning copies the slot reference; both handles refer to the same
    /// registry slot.
    fn clone(&self) -> (r: Self)
        ensures
            r@ == self@,
    {
        LuaFun {
            luaref: self.luaref,
            args: core::marker::PhantomData,
            ret: core::marker::PhantomData,
        }
    }
}

impl<A, R> DeepView for LuaFun<A, R> {
    type V = LuaRef;

    open spec fn deep_view(&self) -> LuaRef {
        self.view()
    }
}

impl<A, R> crate::convert::ToObject for LuaFun<A, R> {
    open spec fn encode_model(m: LuaRef) -> Value {
        Value::Fun(m)
    }

    fn to_obj(self) -> (r: Result<Object, Error>)
    {
        Ok(Object::from_luaref(self.luaref))
    }
}

impl<A, R> crate::convert::FromObject for LuaFun<A, R> {
    open spec fn decode_model(v: Value) -> Option<LuaRef> {
        match v {
            Value::Fun(luaref) => Some(luaref),
            _ => None,
        }
    }

    fn from_obj(obj: Object) -> (r: Result<Self, Error>)
    {
        match obj.try_into_luaref() {
            Ok(luaref) => Ok(LuaFun::from_luaref(luaref)),
            Err(e) => Err(Error::FromObject(e)),
        }
    }
}

impl<A, R> crate::convert::Roundtrip for LuaFun<A, R> {
    proof fn roundtrip(m: LuaRef) {
    }
}

impl<A, R> crate::convert::NonNilEncoding for LuaFun<A, R> {
    proof fn encodes_non_nil(m: LuaRef) {
    }
}

/// How the foreign runtime's protected-call mechanism reported a call.
#[derive(Copy, Clone, Debug, PartialEq, Eq, Structural)]
pub enum CallStatus {
    /// The call ran to completion and left a result.
    Success,
    /// The call raised a runtime error with a message.
    RuntimeError,
    /// The call failed allocating memory.
    MemoryError,
}

/// Turns the raw outcome of the foreign runtime's call mechanism — its
/// status, its message and the value it left — into the typed result a
/// binding-level caller receives. A foreign-reported error is passed
/// through as a message, never reinterpreted.
pub fn interpret_call_status(status: CallStatus, message: String, result: Object) -> (r: Result<
    Object,
    Error,
>)
    ensures
        match status {
            CallStatus::Success => r matches Ok(o) && o@ == result@,
            CallStatus::RuntimeError => r matches Err(Error::ForeignError(m)) && m@ == message@,
            CallStatus::MemoryError => r matches Err(Error::ForeignOutOfMemory(m)) && m@
                == message@,
        },
{
    match status {
        CallStatus::Success => Ok(result),
        CallStatus::RuntimeError => Err(Error::ForeignError(message)),
        CallStatus::MemoryError => Err(Error::ForeignOutOfMemory(message)),
    }
}

/// What the closure-call trampoline does with the host closure's outcome
/// before control returns to the foreign runtime.
pub enum CallbackDisposition {
    /// Hand the closure's result back to the foreign caller.
    Return(Object),
    /// Signal the error through the foreign runtime's native mechanism —
    /// an error must never unwind across the boundary.
    RaiseForeign(String),
}

/// Decides how a host closure's outcome crosses back into the foreign
/// runtime: a result is returned as a value, an error is converted into a
/// foreign-native error signal carrying the error's description.
pub fn callback_disposition(outcome: Result<Object, Error>) -> (r: CallbackDisposition)
    ensures
        match outcome {
            Ok(o) => r matches CallbackDisposition::Return(x) && x@ == o@,
            Err(e) => r matches CallbackDisposition::RaiseForeign(m) && m@ == error_text(e),
        },
{
    match outcome {
        Ok(o) => CallbackDisposition::Return(o),
        Err(e) => CallbackDisposition::RaiseForeign(describe_error(e)),
    }
}

/// The description each library error crosses the boundary with.
pub open spec fn error_text(e: Error) -> Seq<char> {
    match e {
        Error::FromObject(_) => "cannot convert value"@,
        Error::HandleReleased => "handle released"@,
        Error::RecursiveCall => "recursive call"@,
        Error::CalledMoreThanOnce => "called more than once"@,
        Error::ForeignError(m) => m@,
        Error::ForeignOutOfMemory(m) => m@,
    }
}

/// Renders a library error as the message it crosses the boundary with.
fn describe_error(e: Error) -> (r: String)
    ensures
        r@ == error_text(e),
{
    match e {
        Error::FromObject(_) => "cannot convert value".to_owned(),
        Error::HandleReleased => "handle released".to_owned(),
        Error::RecursiveCall => "recursive call".to_owned(),
        Error::CalledMoreThanOnce => "called more than once".to_owned(),
        Error::ForeignError(m) => m,
        Error::ForeignOutOfMemory(m) => m,
    }
}

} // verus!
