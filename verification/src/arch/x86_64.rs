//! The frame layout of the 64-bit x86 backend.
//!
//! The System V ABI for this architecture wants the stack pointer, at the
//! entry of a function, to lie one word below a multiple of sixteen, and
//! passes the first arguments in registers. The switch passes its operands in
//! those same registers, so a fresh stack is entered by the switch itself: it
//! pops the address it jumps to, and that address is the function's.
use vstd::prelude::*;
use crate::arch::{Entry, Memory, Store, Transfer, is_aligned, word, word_size};
use crate::arch::x86_common::STACK_ALIGN;
use crate::stack::Stack;

verus! {

/// The number of words in the initial frame.
pub const FRAME_WORDS: usize = 2;

/// The number of words between the top of a fresh stack and the stack pointer
/// at the instant the function is entered.
pub const ENTRY_DEPTH: usize = 1;

/// The number of words by which the stack pointer of a thread planned by
/// [`Registers::new`](crate::arch::x86_common::Registers::new) is offset
/// before it is aligned.
pub const INIT_OFFSET: usize = 2;

/// The address of the next unconsumed word of a stack.
#[derive(Debug)]
pub struct StackPointer(usize);

impl View for StackPointer {
    type V = int;

    closed spec fn view(&self) -> int {
        self.0 as int
    }
}

impl StackPointer {
    /// The stack pointer at the top of `stack`.
    pub fn new(stack: &Stack) -> (sp: StackPointer)
        ensures
            sp@ == stack.spec_top(),
            stack.wf(),
    {
        StackPointer(stack.top())
    }

    /// The address this stack pointer holds.
    pub fn addr(&self) -> (a: usize)
        ensures
            a == self@,
    {
        self.0
    }

    /// Lowers the stack pointer by one word, in which `val` is to be stored.
    pub fn push(&mut self, val: usize) -> (s: Store)
        requires
            old(self)@ >= word_size(),
        ensures
            final(self)@ == old(self)@ - word_size(),
            s.addr == final(self)@,
            s.word == val,
    {
        self.0 = self.0 - word();
        Store { addr: self.0, word: val }
    }
}

/// The initial frame below `top`, in the order in which it is pushed: a word
/// of padding, then the function.
pub open spec fn frame(top: int, fun: usize) -> Seq<Store> {
    seq![
        Store { addr: (top - word_size()) as usize, word: 0 },
        Store { addr: (top - 2 * word_size()) as usize, word: fun },
    ]
}

/// Where the first switch into a thread suspended at `sp` lands: the switch
/// pops the word at `sp` and jumps to it.
pub open spec fn first_entry(mem: Memory, sp: int) -> Entry {
    Entry { pc: mem[sp], sp: sp + word_size() }
}

/// Lays the initial frame at the top of `stack`, so that the next switch to
/// the stack pointer returned calls `fun`. Returns that stack pointer and the
/// words to write.
pub fn init(stack: &Stack, fun: usize) -> (r: (StackPointer, Vec<Store>))
    requires
        FRAME_WORDS * word_size() < stack.size(),
    ensures
        r.0@ == stack.spec_top() - FRAME_WORDS * word_size(),
        r.1@ == frame(stack.spec_top() as int, fun),
        stack.spec_limit() < r.0@ < stack.spec_base(),
{
    let mut sp: StackPointer = StackPointer::new(stack);
    let ghost top: int = sp@;
    proof {
        lemma_aligned_top_holds_frame(top);
    }
    let mut stores: Vec<Store> = Vec::new();
    let pad: Store = sp.push(0);
    stores.push(pad);
    let entry: Store = sp.push(fun);
    stores.push(entry);
    proof {
        assert(stores@ =~= frame(top, fun));
    }
    (sp, stores)
}

/// A positive multiple of the stack alignment is at least two words.
pub proof fn lemma_aligned_top_holds_frame(top: int)
    requires
        top > 0,
        is_aligned(top, STACK_ALIGN as int),
    ensures
        top >= FRAME_WORDS * word_size(),
{
    crate::arch::lemma_word_is_pow2();
    assert(top % 16 == 0);
    assert(top >= 16);
}

/// The operands of a switch, in the registers in which this backend passes
/// them: the new stack pointer in the first argument register, the payload in
/// the second and third.
pub fn swap(new_sp: StackPointer, arg0: usize, arg1: usize) -> (t: Transfer)
    ensures
        t == (Transfer {
            cfa_slot: None,
            new_sp: crate::stack_pointer::StackPointer(new_sp@ as usize),
            arg0,
            arg1,
        }),
{
    Transfer { cfa_slot: None, new_sp: crate::stack_pointer::StackPointer(new_sp.0), arg0, arg1 }
}

} // verus!
