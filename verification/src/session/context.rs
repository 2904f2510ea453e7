//! The session context and the rebuilding of arguments.
use vstd::prelude::*;
use core::marker::PhantomData;
use void::Void;
use crate::arch::{Arch, Store, Transfer, word_size};
use crate::fat_args;
use crate::stack::Stack;
use crate::stack_pointer::{StackPointer, cfa_slot, initialised};

verus! {

/// The type of what cannot be: no value of it exists.
#[verifier::external_type_specification]
#[verifier::external_body]
pub struct ExVoid(void::Void);

/// A suspended thread of execution that expects `Args` when it is resumed.
///
/// The context holds the stack pointer under which the thread is suspended
/// and, unless the thread is the native one, the thread's locals, which own
/// the stack it runs on. Dropping the context drops those.
pub struct Context<Args, S> {
    /// The stack pointer under which the thread is suspended.
    pub stack_pointer: StackPointer,
    /// The locals of the suspended thread; `None` for the native thread.
    pub thread_locals: Option<ThreadLocals<S>>,
    /// What the thread expects.
    pub _ref: PhantomData<Args>,
}

/// What a thread owns for as long as it lives: the stack it runs on. The
/// locals of a thread travel with control: a switch hands them to the thread
/// it resumes, and a thread hands its own to the thread it switches to, which
/// holds them while the first is suspended.
#[derive(Debug)]
pub struct ThreadLocals<S> {
    stack: S,
}

/// The locals of the native thread, which has none: its stack is not owned by
/// any context.
pub const NATIVE_THREAD_LOCALS: Option<ThreadLocals<Void>> = None;

/// `void::unreachable`, which takes a value of the type that has none and so
/// is never called: whatever type a call is given, it hands nothing back.
#[verifier::external_body]
pub(crate) fn unreachable<T>(never: Void) -> T {
    void::unreachable(never)
}

/// The locals of the native thread, as those of a thread whose stack is of
/// type `S`: none. Locals over a stack of the type that has no value cannot
/// be.
#[allow(unreachable_code)]
pub fn native<S>(locals: Option<ThreadLocals<Void>>) -> (r: Option<ThreadLocals<S>>)
    ensures
        r is None,
{
    match locals {
        None => None,
        Some(locals) => {
            let _unit: () = self::unreachable(locals.into_stack());
            None
        },
    }
}

/// What a switch into a session context is made of.
pub struct Departure<P, S> {
    /// The thread of execution to resume.
    pub new_sp: StackPointer,
    /// What it is sent.
    pub payload: P,
    /// Its locals, which it holds itself while it runs.
    pub thread_locals: Option<ThreadLocals<S>>,
}

impl<S> ThreadLocals<S> {
    /// The stack the locals own.
    pub closed spec fn stack(&self) -> S {
        self.stack
    }

    /// The locals of a thread that is to run on `stack`.
    pub fn new(stack: S) -> (tl: ThreadLocals<S>)
        ensures
            tl.stack() == stack,
    {
        ThreadLocals { stack }
    }

    /// Gives up the locals of a thread that has ended, returning its stack.
    pub fn into_stack(self) -> (stack: S)
        ensures
            stack == self.stack(),
    {
        self.stack
    }
}

impl<Args, S> Context<Args, S> {
    /// The context of a thread suspended under `sp` whose locals are
    /// `thread_locals`.
    pub open spec fn of(sp: StackPointer, thread_locals: Option<ThreadLocals<S>>) -> Self {
        Context { stack_pointer: sp, thread_locals, _ref: PhantomData }
    }

    /// Plans a new context on `stack`: the initial frame that makes the first
    /// switch call `wrapper`, and that first switch, which hands over the
    /// closure whose bytes are `closure` and lie at `addr`. The closure is to
    /// move the locals of the new thread and its function onto the new stack
    /// and to switch back at once with the locals; [`started`](Self::started)
    /// makes the context of what that switch delivers.
    pub fn new(arch: Arch, stack: &Stack, wrapper: usize, closure: &[u8], addr: usize) -> (r: (
        Vec<Store>,
        Transfer,
    ))
        requires
            arch.reserve() * word_size() < stack.size(),
        ensures
            initialised(arch, stack, wrapper, r.1.new_sp, r.0@),
            r.1.cfa_slot == Some(cfa_slot(stack) as usize),
            seq![r.1.arg0, r.1.arg1] == fat_args::to_regs_spec(closure@, addr),
    {
        fat_args::init(arch, stack, wrapper, closure, addr)
    }

    /// The context of the thread that has just switched back for the first
    /// time, from under `sp`, with its locals.
    pub fn started(sp: StackPointer, thread_locals: ThreadLocals<S>) -> (ctx: Self)
        ensures
            ctx == Self::of(sp, Some(thread_locals)),
    {
        Context { stack_pointer: sp, thread_locals: Some(thread_locals), _ref: PhantomData }
    }

    /// The context of the thread that has just switched here from under `sp`
    /// and handed over `thread_locals`.
    pub fn from_parts(sp: StackPointer, thread_locals: Option<ThreadLocals<S>>) -> (ctx: Self)
        ensures
            ctx == Self::of(sp, thread_locals),
    {
        Context { stack_pointer: sp, thread_locals, _ref: PhantomData }
    }

    /// Plans the switch into the context with `their_payload`. The context is
    /// used up: the thread it suspended runs again, and holds its locals
    /// itself.
    pub fn raw_switch<P>(self, their_payload: P) -> (d: Departure<P, S>)
        ensures
            d.new_sp == self.stack_pointer,
            d.payload == their_payload,
            d.thread_locals == self.thread_locals,
    {
        Departure {
            new_sp: self.stack_pointer,
            payload: their_payload,
            thread_locals: self.thread_locals,
        }
    }

    /// Abandons the context: the thread it suspended never runs again.
    /// Returns its locals, with which its stack goes.
    pub fn abandon(self) -> (thread_locals: Option<ThreadLocals<S>>)
        ensures
            thread_locals == self.thread_locals,
    {
        self.thread_locals
    }
}

/// An argument that a thread makes of what a switch delivered to it: the
/// stack pointer of the thread now suspended, and a payload of which the
/// switch knows nothing. Making it is the first thing a resumed thread does.
pub trait RebuildRaw: Sized {
    /// What travels beside the stack pointer.
    type PayloadRaw;

    /// What `rebuild_raw` makes.
    spec fn rebuilt_raw(sp: StackPointer, payload: Self::PayloadRaw) -> Self;

    /// Makes the argument.
    fn rebuild_raw(sp: StackPointer, payload: Self::PayloadRaw) -> (r: Self)
        ensures
            r == Self::rebuilt_raw(sp, payload),
    ;
}

impl RebuildRaw for Void {
    type PayloadRaw = Void;

    open spec fn rebuilt_raw(sp: StackPointer, payload: Void) -> Void {
        payload
    }

    fn rebuild_raw(sp: StackPointer, payload: Void) -> (r: Void) {
        payload
    }
}

} // verus!
