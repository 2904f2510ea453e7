//! The least there is of a context: an address inside a stack.
use vstd::prelude::*;
use vstd::arithmetic::power2::is_pow2;
use vstd::layout::{align_of, layout_for_type_is_valid, size_of};
use crate::arch::{
    Arch, Entry, Memory, Store, Transfer, is_aligned, lemma_aligned_minus, lemma_aligned_to_divisor,
    lemma_fresh_stack_enters_fun, lemma_round_down_aligned, lemma_word_is_pow2, round_down, word,
    word_size, write_all, write_word,
};
use crate::arch::x86_common::STACK_ALIGN;
use crate::stack::Stack;

pub use crate::arch::align_down_mut;

verus! {

/// The address of the next unconsumed slot of a stack: everything below it is
/// free, everything from it upwards is in use.
#[derive(Clone, Copy, Debug, PartialEq, Eq)]
pub struct StackPointer(pub usize);

/// The address at which a value of type `T` comes to lie when it is pushed
/// onto a stack whose pointer is `sp`.
pub open spec fn push_addr<T>(sp: int) -> int {
    round_down(sp - size_of::<T>(), align_of::<T>() as int)
}

/// The stack pointer after `n` machine words have been pushed, starting from
/// `sp`: each push lowers it by a word and aligns it down to a word.
pub open spec fn word_slot(sp: int, n: nat) -> int
    decreases n,
{
    if n == 0 {
        sp
    } else {
        round_down(word_slot(sp, (n - 1) as nat) - word_size(), word_size())
    }
}

/// What holds of the stack pointer `sp` and the words `stores` that prepare
/// the fresh `stack` to call `fun`: the words are the initial frame of
/// `arch`, laid from the base of the stack downwards, and lie within the
/// stack; `sp` is left at the lowest of them; and once they are written, the
/// first switch to `sp` enters `fun` with the stack pointer within the stack
/// and one word below a multiple of [`STACK_ALIGN`].
pub open spec fn initialised(
    arch: Arch,
    stack: &Stack,
    fun: usize,
    sp: StackPointer,
    stores: Seq<Store>,
) -> bool {
    let base = stack.spec_base() as int;
    let entry_sp = base - arch.entry_depth() * word_size();
    &&& sp.0 == base - arch.frame_words() * word_size()
    &&& stores == arch.frame(base, fun)
    &&& forall|i: int|
        0 <= i < stores.len() ==> stack.spec_limit() < (#[trigger] stores[i]).addr
            && stores[i].addr + word_size() <= base
    &&& forall|mem: Memory| #[trigger]
        arch.first_entry(write_all(mem, stores), sp.0 as int) == (Entry { pc: fun, sp: entry_sp })
    &&& stack.spec_limit() < entry_sp < base
    &&& is_aligned(entry_sp + word_size(), STACK_ALIGN as int)
}

/// The address of the slot in which a switch into a fresh `stack` records the
/// stack pointer of the thread that enters it: the topmost word.
pub open spec fn cfa_slot(stack: &Stack) -> int {
    stack.spec_base() - word_size()
}

/// `mem` after `stores` and after the first switch into `stack` has recorded
/// `word` in the slot for the caller's stack pointer.
pub open spec fn linked(mem: Memory, stores: Seq<Store>, stack: &Stack, word: usize) -> Memory {
    write_word(write_all(mem, stores), Store { addr: cfa_slot(stack) as usize, word })
}

/// The slot in which the first switch into a fresh stack records where the
/// caller stood is the topmost word of the initial frame, which nothing else
/// reads.
pub proof fn lemma_cfa_slot_is_topmost_word(arch: Arch, stack: &Stack, fun: usize)
    requires
        stack.wf(),
        arch.reserve() * word_size() < stack.size(),
    ensures
        arch.frame(stack.spec_base() as int, fun)[0].addr == cfa_slot(stack),
        stack.spec_limit() < cfa_slot(stack) < stack.spec_base(),
        forall|mem: Memory, word: usize| #[trigger]
            arch.first_entry(
                linked(mem, arch.frame(stack.spec_base() as int, fun), stack, word),
                stack.spec_base() - arch.frame_words() * word_size(),
            ) == arch.first_entry(
                write_all(mem, arch.frame(stack.spec_base() as int, fun)),
                stack.spec_base() - arch.frame_words() * word_size(),
            ),
{
    let base = stack.spec_base() as int;
    lemma_word_is_pow2();
    lemma_aligned_to_divisor(base, STACK_ALIGN as int, word_size());
    match arch {
        Arch::X86 { trampoline } => {
            crate::arch::x86::lemma_frame_addrs(base, fun, trampoline);
            let frame = crate::arch::x86::frame(base, fun, trampoline);
            assert(frame[0].addr == base - (0 + 1) * word_size());
        },
        Arch::X86_64 => {},
    }
}

impl StackPointer {
    /// The initial stack pointer of `stack`: its top, aligned down to a word.
    pub fn new(stack: &Stack) -> (sp: StackPointer)
        ensures
            sp.0 == round_down(stack.spec_top() as int, word_size()),
            sp.0 == stack.spec_top(),
            stack.wf(),
    {
        let top: usize = stack.top();
        let w: usize = word();
        proof {
            lemma_word_is_pow2();
            lemma_aligned_to_divisor(top as int, STACK_ALIGN as int, w as int);
            lemma_round_down_aligned(top as int, w as int);
        }
        StackPointer(align_down_mut(top, w))
    }

    /// Makes room for a value of type `T`: lowers the stack pointer by the
    /// size of `T` and aligns it down to the alignment of `T`. Returns the
    /// address at which the value is to be placed, which is the new stack
    /// pointer. What the slot held before is not dropped.
    pub fn push<T>(&mut self) -> (slot: usize)
        requires
            size_of::<T>() <= old(self).0,
        ensures
            slot == push_addr::<T>(old(self).0 as int),
            final(self).0 == slot,
            slot <= old(self).0 - size_of::<T>(),
            is_aligned(slot as int, align_of::<T>() as int),
    {
        layout_for_type_is_valid::<T>();
        proof {
            lemma_push_addr_bounds::<T>(self.0 as int);
        }
        let sp: usize = self.0 - core::mem::size_of::<T>();
        let sp: usize = align_down_mut(sp, core::mem::align_of::<T>());
        self.0 = sp;
        sp
    }

    /// Prepares the fresh `stack` to call `fun` when it is first switched to:
    /// lays the initial frame of `arch` from the base of the stack downwards.
    /// Returns the stack pointer to switch to and the words to write. Nothing
    /// is switched.
    pub fn init(arch: Arch, stack: &Stack, fun: usize) -> (r: (StackPointer, Vec<Store>))
        requires
            arch.reserve() * word_size() < stack.size(),
        ensures
            initialised(arch, stack, fun, r.0, r.1@),
    {
        let base: usize = stack.base();
        proof {
            lemma_word_is_pow2();
            lemma_aligned_to_divisor(base as int, STACK_ALIGN as int, word_size());
            assert forall|mem: Memory|
                (#[trigger] arch.first_entry(
                    write_all(mem, arch.frame(base as int, fun)),
                    base - arch.frame_words() * word_size(),
                )) == (Entry { pc: fun, sp: base - arch.entry_depth() * word_size() }) by {
                lemma_fresh_stack_enters_fun(arch, base as int, fun, mem);
            }
            lemma_fresh_stack_enters_fun(arch, base as int, fun, Map::empty());
        }
        match arch {
            Arch::X86 { trampoline } => {
                let mut sp: StackPointer = StackPointer(base);
                proof {
                    lemma_word_slot_aligned(base as int, 5);
                }
                let stores: Vec<Store> = crate::arch::x86::init(&mut sp, fun, trampoline);
                (sp, stores)
            },
            Arch::X86_64 => {
                let (sp, stores) = crate::arch::x86_64::init(stack, fun);
                (StackPointer(sp.addr()), stores)
            },
        }
    }

    /// The switch to the thread of execution suspended at `new_sp`, with the
    /// payload `arg0` and `arg1`. If that thread has not run yet, `new_stack`
    /// is to be the stack it will run on: the switch then records the current
    /// stack pointer in the topmost word of that stack, which links the two
    /// stacks for an unwinder.
    pub fn swap(new_stack: Option<&Stack>, new_sp: StackPointer, arg0: usize, arg1: usize) -> (t:
        Transfer)
        ensures
            t.cfa_slot == (match new_stack {
                Some(stack) => Some(cfa_slot(stack) as usize),
                None => None,
            }),
            new_stack matches Some(stack) ==> 0 <= cfa_slot(stack) < stack.spec_base(),
            t.new_sp == new_sp,
            t.arg0 == arg0,
            t.arg1 == arg1,
    {
        let cfa_slot: Option<usize> = match new_stack {
            Some(stack) => {
                let base: usize = stack.base();
                proof {
                    lemma_word_is_pow2();
                }
                Some(base - word())
            },
            None => None,
        };
        Transfer { cfa_slot, new_sp, arg0, arg1 }
    }

    /// Makes room for a machine word: lowers the stack pointer by a word and
    /// aligns it down to a word. Returns the address of the word, which is the
    /// new stack pointer.
    pub fn push_word(&mut self) -> (slot: usize)
        requires
            word_size() <= old(self).0,
        ensures
            slot == word_slot(old(self).0 as int, 1),
            final(self).0 == slot,
            slot <= old(self).0 - word_size(),
            is_aligned(slot as int, word_size()),
    {
        let w: usize = word();
        proof {
            reveal_with_fuel(word_slot, 2);
            lemma_word_is_pow2();
            lemma_round_down_aligned(self.0 - w, w as int);
        }
        let sp: usize = align_down_mut(self.0 - w, w);
        self.0 = sp;
        sp
    }
}

/// Pushing a value never raises the stack pointer, and lowers it by no more
/// than the value's size and the padding its alignment asks for.
pub proof fn lemma_push_addr_bounds<T>(sp: int)
    requires
        is_pow2(align_of::<T>() as int),
        size_of::<T>() <= sp,
    ensures
        0 <= push_addr::<T>(sp) <= sp - size_of::<T>(),
        sp - size_of::<T>() - align_of::<T>() < push_addr::<T>(sp),
        is_aligned(push_addr::<T>(sp), align_of::<T>() as int),
{
    let n: int = align_of::<T>() as int;
    vstd::arithmetic::power2::is_pow2_equiv(n);
    let e: nat = choose|e: nat| vstd::arithmetic::power::pow(2, e) == n;
    vstd::arithmetic::power2::lemma_pow2_pos(e);
    vstd::arithmetic::power2::lemma_pow2(e);
    lemma_round_down_aligned(sp - size_of::<T>(), n);
}

/// From a word-aligned stack pointer, each machine word pushed lowers the
/// stack pointer by exactly one word.
pub proof fn lemma_word_slot_aligned(sp: int, n: nat)
    requires
        is_aligned(sp, word_size()),
        n * word_size() <= sp,
    ensures
        word_slot(sp, n) == sp - n * word_size(),
        is_aligned(word_slot(sp, n), word_size()),
    decreases n,
{
    if n > 0 {
        let m: nat = (n - 1) as nat;
        assert(m * word_size() == n * word_size() - word_size()) by (nonlinear_arith)
            requires
                m == n - 1,
        ;
        lemma_word_slot_aligned(sp, m);
        let prev: int = word_slot(sp, m);
        let next: int = prev - word_size();
        assert(is_aligned(next, word_size())) by {
            lemma_aligned_minus(prev, word_size());
        }
        lemma_round_down_aligned(next, word_size());
        assert(word_slot(sp, n) == round_down(next, word_size()));
        assert(word_slot(sp, n) == sp - n * word_size());
    } else {
        assert(n * word_size() == 0) by (nonlinear_arith)
            requires
                n == 0,
        ;
    }
}

} // verus!
