//! A suspended thread of execution together with the stack it runs on.
use vstd::prelude::*;
use crate::arch::{Arch, SWITCH_WORDS, Store, Transfer, delivered, resumed_sp, word_size};
use crate::stack::Stack;
use crate::stack_pointer::{StackPointer, cfa_slot, initialised};

verus! {

/// A thread of execution and the stack it runs on.
///
/// `swap` plans a switch into the thread and `arrive` takes what a switch
/// delivered; `unwrap` gives the stack back once the thread is done with.
///
/// While the thread is suspended, the context holds the stack pointer under
/// which it is suspended. While the thread runs, the context holds the stack
/// pointer of the thread that switched to it, which is where the thread
/// switches back to.
#[derive(Debug)]
pub struct Context {
    stack: Stack,
    stack_ptr: StackPointer,
    entered: bool,
}

impl Context {
    /// The stack the context owns.
    pub closed spec fn stack(&self) -> Stack {
        self.stack
    }

    /// The stack pointer that the next switch resumes.
    pub closed spec fn stack_ptr(&self) -> StackPointer {
        self.stack_ptr
    }

    /// Whether a switch into the context has been made.
    pub closed spec fn entered(&self) -> bool {
        self.entered
    }

    /// The switch that `swap` asks for: to the stack pointer the context
    /// holds, with the address `slot` of the context's stack-pointer slot as
    /// the first payload word and `arg` as the second. Only the first switch
    /// into the context links the caller's stack to the context's.
    pub open spec fn departure(&self, slot: usize, arg: usize) -> Transfer {
        Transfer {
            cfa_slot: if self.entered() {
                None
            } else {
                Some(cfa_slot(&self.stack()) as usize)
            },
            new_sp: self.stack_ptr(),
            arg0: slot,
            arg1: arg,
        }
    }

    /// The context once a switch into it is planned.
    pub closed spec fn swapped(self) -> Context {
        Context { stack: self.stack, stack_ptr: self.stack_ptr, entered: true }
    }

    /// The context once it has recorded that the thread now suspended under
    /// `old_sp` switched.
    pub closed spec fn arrived(self, old_sp: StackPointer) -> Context {
        Context { stack: self.stack, stack_ptr: old_sp, entered: self.entered }
    }

    /// What `swapped` and `arrived` change.
    pub proof fn lemma_steps(self, old_sp: StackPointer)
        ensures
            self.swapped().stack() == self.stack(),
            self.swapped().stack_ptr() == self.stack_ptr(),
            self.swapped().entered(),
            self.arrived(old_sp).stack() == self.stack(),
            self.arrived(old_sp).stack_ptr() == old_sp,
            self.arrived(old_sp).entered() == self.entered(),
    {
    }

    /// A switch into a context and back returns what the thread of the
    /// context sent, resumes the caller where it was suspended, and leaves
    /// the context holding the thread and its stack.
    ///
    /// A thread whose stack pointer is `caller_sp` swaps into the context
    /// with `arg`. The thread resumed records what the switch delivered, and
    /// later, when its stack pointer is `callee_sp`, swaps with `reply`
    /// through the same context. The caller records what that switch
    /// delivered.
    pub proof fn lemma_there_and_back(
        self,
        slot: usize,
        arg: usize,
        reply: usize,
        caller_sp: int,
        callee_sp: int,
    )
        requires
            SWITCH_WORDS * word_size() <= caller_sp <= usize::MAX,
            SWITCH_WORDS * word_size() <= callee_sp <= usize::MAX,
        ensures
            ({
                let there = self.departure(slot, arg);
                let got = delivered(there, caller_sp);
                let running = self.swapped().arrived(got.0);
                let back = running.departure(slot, reply);
                let returned = delivered(back, callee_sp);
                let suspended = running.swapped().arrived(returned.0);
                &&& got.1 == slot
                &&& got.2 == arg
                &&& back.cfa_slot is None
                &&& resumed_sp(back.new_sp.0 as int) == caller_sp
                &&& returned.1 == slot
                &&& returned.2 == reply
                &&& resumed_sp(suspended.stack_ptr().0 as int) == callee_sp
                &&& suspended.stack() == self.stack()
                &&& suspended.entered()
            }),
    {
    }

    /// Creates a new Context on `stack`. When it is first swapped into, it
    /// calls `fun` with the stack pointer of the thread that swapped, the
    /// address of the context's stack-pointer slot and the argument passed to
    /// `swap`. Returns the context and the words to write to the stack before
    /// that. Nothing is switched.
    pub fn new(arch: Arch, stack: Stack, fun: usize) -> (r: (Context, Vec<Store>))
        requires
            arch.reserve() * word_size() < stack.size(),
        ensures
            r.0.stack() == stack,
            !r.0.entered(),
            initialised(arch, &stack, fun, r.0.stack_ptr(), r.1@),
    {
        let (stack_ptr, stores) = StackPointer::init(arch, &stack, fun);
        (Context { stack, stack_ptr, entered: false }, stores)
    }

    /// Unwraps the context, returning the stack it contained. Nothing is run
    /// on the stack, and what frames it still holds are abandoned.
    pub fn unwrap(self) -> (stack: Stack)
        ensures
            stack == self.stack(),
    {
        self.stack
    }

    /// Plans the switch into the context: the thread that performs the
    /// transfer is suspended, and the thread the context holds continues. The
    /// first payload word is `slot`, the address of the stack-pointer slot of
    /// this context, at which the thread switched to records who resumed it;
    /// the second is `arg`.
    pub fn swap(&mut self, slot: usize, arg: usize) -> (t: Transfer)
        ensures
            t == old(self).departure(slot, arg),
            *final(self) == old(self).swapped(),
            final(self).entered(),
            final(self).stack() == old(self).stack(),
            final(self).stack_ptr() == old(self).stack_ptr(),
    {
        let t: Transfer = if self.entered {
            StackPointer::swap(None, self.stack_ptr, slot, arg)
        } else {
            StackPointer::swap(Some(&self.stack), self.stack_ptr, slot, arg)
        };
        self.entered = true;
        t
    }

    /// Records what a switch delivered to a thread that runs beside this
    /// context: the stack pointer `old_sp` of the thread now suspended, which
    /// the next `swap` resumes. Returns the payload `arg`.
    pub fn arrive(&mut self, old_sp: StackPointer, arg: usize) -> (r: usize)
        ensures
            r == arg,
            *final(self) == old(self).arrived(old_sp),
            final(self).stack_ptr() == old_sp,
            final(self).stack() == old(self).stack(),
            final(self).entered() == old(self).entered(),
    {
        self.stack_ptr = old_sp;
        arg
    }
}

} // verus!
