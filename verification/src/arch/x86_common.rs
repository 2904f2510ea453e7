//! What the x86 family of backends has in common.
use vstd::prelude::*;
use vstd::arithmetic::power2::{is_pow2, is_pow2_equiv, is_pow2_exists, lemma2_to64, lemma_pow2};
use vstd::layout::size_of;
use crate::arch::{
    Arch, Store, Transfer, align_down_mut, is_aligned, lemma_aligned_difference,
    lemma_round_down_aligned, lemma_word_is_pow2, round_down, word, word_size,
};
use crate::stack_pointer::{StackPointer, push_addr};

verus! {

/// The alignment, in bytes, that the ABI requires of the stack pointer at a
/// call.
pub const STACK_ALIGN: usize = 16;

/// [`STACK_ALIGN`] is a power of two.
pub proof fn lemma_stack_align_is_pow2()
    ensures
        is_pow2(STACK_ALIGN as int),
{
    lemma2_to64();
    lemma_pow2(4);
    assert(vstd::arithmetic::power::pow(2, 4) == 16);
    assert(is_pow2_exists(16));
    is_pow2_equiv(16);
}

/// The number of words in the frame that [`Registers::new`] lays: the
/// address of the closure, and below it that of the trampoline.
pub const FRAME_WORDS: usize = 2;

/// The saved state of a suspended thread of execution: its stack pointer.
/// Every other register is saved on the stack by the thread itself.
#[derive(Debug, Copy, Clone)]
pub struct Registers {
    stack_pointer: usize,
}

/// The stack pointer that [`Registers::new`] aligns: the highest not above
/// `sp` that lies `arch.init_offset()` words below a multiple of
/// [`STACK_ALIGN`].
pub open spec fn init_aligned(arch: Arch, sp: int) -> int {
    round_down(sp + arch.init_offset() * word_size(), STACK_ALIGN as int) - arch.init_offset()
        * word_size()
}

/// The frame that [`Registers::new`] lays above `sp`, in the order in which
/// it is pushed: the address `closure` of the closure, then the address of
/// the trampoline, at which the first switch continues with the stack pointer
/// at the word above.
pub open spec fn frame(sp: int, closure: usize, trampoline: usize) -> Seq<Store> {
    seq![
        Store { addr: (sp + word_size()) as usize, word: closure },
        Store { addr: sp as usize, word: trampoline },
    ]
}

impl Registers {
    /// The stack pointer under which the thread is suspended.
    pub closed spec fn stack_pointer(&self) -> usize {
        self.stack_pointer
    }

    /// Plans a thread that runs a closure of type `F` on the stack below
    /// `top`. Room is made for the closure first; the stack pointer is then
    /// aligned so that the trampoline is entered as the ABI requires, and the
    /// frame is laid that makes the first switch enter the trampoline at
    /// `trampoline` with the address of the closure on top of the stack.
    ///
    /// Returns the registers to switch to, the address at which the closure
    /// is to be placed, and the words to write.
    pub fn new<F>(arch: Arch, top: usize, trampoline: usize) -> (r: (Registers, usize, Vec<Store>))
        requires
            size_of::<F>() <= top,
            STACK_ALIGN + FRAME_WORDS * word_size() <= push_addr::<F>(top as int),
            top + arch.init_offset() * word_size() <= usize::MAX,
        ensures
            r.1 == push_addr::<F>(top as int),
            r.0.stack_pointer() == init_aligned(arch, r.1 as int) - FRAME_WORDS * word_size(),
            r.2@ == frame(r.0.stack_pointer() as int, r.1, trampoline),
            r.0.stack_pointer() + FRAME_WORDS * word_size() <= r.1,
            is_aligned(
                r.0.stack_pointer() + (FRAME_WORDS + arch.init_offset()) * word_size(),
                STACK_ALIGN as int,
            ),
            is_aligned(arch.init_offset() * word_size(), STACK_ALIGN as int) ==> is_aligned(
                r.0.stack_pointer() + FRAME_WORDS * word_size(),
                STACK_ALIGN as int,
            ),
    {
        let mut sp: StackPointer = StackPointer(top);
        let closure_ptr: usize = sp.push::<F>();
        let w: usize = word();
        let offset: usize = arch.init_offset_words() * w;
        proof {
            lemma_word_is_pow2();
            lemma_stack_align_is_pow2();
            lemma_round_down_aligned(closure_ptr + offset, STACK_ALIGN as int);
            assert(offset == arch.init_offset() * word_size());
        }
        let aligned: usize = align_down_mut(closure_ptr + offset, STACK_ALIGN) - offset;
        let mut stores: Vec<Store> = Vec::new();
        stores.push(Store { addr: aligned - w, word: closure_ptr });
        stores.push(Store { addr: aligned - 2 * w, word: trampoline });
        proof {
            assert(stores@ =~= frame(aligned - 2 * w, closure_ptr, trampoline));
            let sp: int = aligned - 2 * w;
            assert(sp + (FRAME_WORDS + arch.init_offset()) * word_size() == aligned + offset)
                by (nonlinear_arith)
                requires
                    sp == aligned - 2 * w,
                    FRAME_WORDS == 2,
                    w == word_size(),
                    offset == arch.init_offset() * word_size(),
            ;
            if is_aligned(offset as int, STACK_ALIGN as int) {
                lemma_aligned_difference(aligned + offset, offset as int, STACK_ALIGN as int);
            }
        }
        (Registers { stack_pointer: aligned - 2 * w }, closure_ptr, stores)
    }

    /// Plans the switch to the thread with the word `args`.
    pub fn swap(self, args: usize) -> (t: Transfer)
        ensures
            t == (Transfer {
                cfa_slot: None,
                new_sp: StackPointer(self.stack_pointer()),
                arg0: args,
                arg1: 0,
            }),
    {
        Transfer { cfa_slot: None, new_sp: StackPointer(self.stack_pointer), arg0: args, arg1: 0 }
    }

    /// Takes what a switch delivered: the registers of the thread now
    /// suspended, and the word it sent.
    pub fn arrive(reply: (StackPointer, usize, usize)) -> (r: (Registers, usize))
        ensures
            r.0.stack_pointer() == reply.0.0,
            r.1 == reply.1,
    {
        (Registers { stack_pointer: reply.0.0 }, reply.1)
    }
}

/// On the machine an architecture names, the offset of [`Registers::new`] is
/// a multiple of [`STACK_ALIGN`], so that the trampoline is entered with the
/// stack pointer one word below such a multiple.
pub proof fn lemma_init_offset_is_aligned(arch: Arch)
    requires
        arch matches Arch::X86 { .. } ==> word_size() == 4,
        arch matches Arch::X86_64 ==> word_size() == 8,
    ensures
        is_aligned(arch.init_offset() * word_size(), STACK_ALIGN as int),
{
    match arch {
        Arch::X86 { .. } => {
            assert(arch.init_offset() * word_size() == 16);
        },
        Arch::X86_64 => {
            assert(arch.init_offset() * word_size() == 16);
        },
    }
    assert(16int % 16 == 0);
}

} // verus!
