//! The frame layout of the 32-bit x86 backend.
//!
//! The System V ABI for this architecture passes the first argument on the
//! stack and wants the stack pointer, at the entry of a function, to lie one
//! word below a multiple of sixteen. A fresh stack therefore cannot be entered
//! by the switch alone: the switch resumes a first trampoline, which calls a
//! second one, which pushes the three arguments and calls the function.
use vstd::prelude::*;
use crate::arch::{Entry, Memory, Store, Transfer, is_aligned, word_size};
use crate::stack_pointer::{StackPointer, lemma_word_slot_aligned, word_slot};

verus! {

/// What the slot for the caller's stack pointer holds until the first switch
/// fills it in.
pub const CFA_FILL: usize = 0xdead0cfa;

/// The frame pointer that the first switch restores.
pub const FRAME_POINTER_FILL: usize = 0xdeadbbbb;

/// The number of words in the initial frame.
pub const FRAME_WORDS: usize = 6;

/// The number of words between the base of a fresh stack and the stack
/// pointer at the instant the function is entered.
pub const ENTRY_DEPTH: usize = 9;

/// The number of words by which the stack pointer of a thread planned by
/// [`Registers::new`](crate::arch::x86_common::Registers::new) is offset
/// before it is aligned.
pub const INIT_OFFSET: usize = 4;

/// The initial frame, in the order in which it is pushed from `sp`: the slot
/// for the caller's stack pointer, two words of padding, the function, the
/// first trampoline and the saved frame pointer.
pub open spec fn frame(sp: int, f: usize, trampoline: usize) -> Seq<Store> {
    seq![
        Store { addr: word_slot(sp, 1) as usize, word: CFA_FILL },
        Store { addr: word_slot(sp, 2) as usize, word: 0 },
        Store { addr: word_slot(sp, 3) as usize, word: 0 },
        Store { addr: word_slot(sp, 4) as usize, word: f },
        Store { addr: word_slot(sp, 5) as usize, word: trampoline },
        Store { addr: word_slot(sp, 6) as usize, word: FRAME_POINTER_FILL },
    ]
}

/// Where the first switch into a thread suspended at `sp` lands.
///
/// The switch pops the saved frame pointer and then the address it jumps to,
/// the first trampoline's. That trampoline calls the second, which pushes the
/// three arguments and calls the function whose address then lies four words
/// above the stack pointer: the word that was two above `sp`. The two calls
/// and three pushes leave the stack pointer three words below `sp`.
pub open spec fn first_entry(mem: Memory, sp: int) -> Entry {
    Entry { pc: mem[sp + 2 * word_size()], sp: sp - 3 * word_size() }
}

/// Lays the initial frame at `sp`, so that the next switch to `sp` calls `f`
/// through the trampoline at `trampoline`. Returns the words to write; `sp`
/// is left at the last of them.
pub fn init(sp: &mut StackPointer, f: usize, trampoline: usize) -> (stores: Vec<Store>)
    requires
        word_slot(old(sp).0 as int, 5) >= word_size(),
    ensures
        stores@ == frame(old(sp).0 as int, f, trampoline),
        final(sp).0 == word_slot(old(sp).0 as int, 6),
        is_aligned(old(sp).0 as int, word_size()) ==> final(sp).0 == old(sp).0 - FRAME_WORDS
            * word_size(),
        is_aligned(old(sp).0 as int, word_size()) ==> forall|i: int|
            0 <= i < 6 ==> (#[trigger] stores@[i]).addr == old(sp).0 - (i + 1) * word_size(),
{
    let ghost top: int = sp.0 as int;
    proof {
        reveal_with_fuel(word_slot, 7);
        lemma_word_slots_decrease(top, 5);
    }
    let mut stores: Vec<Store> = Vec::new();
    let cfa: usize = sp.push_word();
    stores.push(Store { addr: cfa, word: CFA_FILL });
    let pad: usize = sp.push_word();
    stores.push(Store { addr: pad, word: 0 });
    let pad: usize = sp.push_word();
    stores.push(Store { addr: pad, word: 0 });
    let fun: usize = sp.push_word();
    stores.push(Store { addr: fun, word: f });
    let ret: usize = sp.push_word();
    stores.push(Store { addr: ret, word: trampoline });
    let fp: usize = sp.push_word();
    stores.push(Store { addr: fp, word: FRAME_POINTER_FILL });
    proof {
        assert(stores@ =~= frame(top, f, trampoline));
        if is_aligned(top, word_size()) {
            lemma_frame_addrs(top, f, trampoline);
        }
    }
    stores
}

/// While a word can still be pushed, every earlier push could be made too.
proof fn lemma_word_slots_decrease(sp: int, n: nat)
    requires
        word_slot(sp, n) >= word_size(),
    ensures
        forall|k: nat| k <= n ==> #[trigger] word_slot(sp, k) >= word_size(),
    decreases n,
{
    if n > 0 {
        let m: nat = (n - 1) as nat;
        let prev: int = word_slot(sp, m);
        if prev < word_size() {
            // The slot below would lie at a negative address rounded down.
            crate::arch::lemma_round_down_aligned(prev - word_size(), word_size());
            assert(false);
        }
        lemma_word_slots_decrease(sp, m);
        assert forall|k: nat| k <= n implies #[trigger] word_slot(sp, k) >= word_size() by {
            if k < n {
                assert(k <= m);
            }
        }
    }
}

/// In a frame laid from a word-aligned address, the words lie one below the
/// other.
pub proof fn lemma_frame_addrs(sp: int, f: usize, trampoline: usize)
    requires
        is_aligned(sp, word_size()),
        FRAME_WORDS * word_size() <= sp <= usize::MAX,
    ensures
        word_slot(sp, 6) == sp - FRAME_WORDS * word_size(),
        forall|i: int|
            0 <= i < 6 ==> (#[trigger] frame(sp, f, trampoline)[i]).addr == sp - (i + 1)
                * word_size(),
{
    lemma_word_slot_aligned(sp, 1);
    lemma_word_slot_aligned(sp, 2);
    lemma_word_slot_aligned(sp, 3);
    lemma_word_slot_aligned(sp, 4);
    lemma_word_slot_aligned(sp, 5);
    lemma_word_slot_aligned(sp, 6);
}

/// The operands of a switch, in the registers in which this backend passes
/// them: the new stack pointer in `eax`, the payload in `esi` and `edx`.
pub fn swap(cfa_slot: Option<usize>, new_sp: StackPointer, arg0: usize, arg1: usize) -> (t:
    Transfer)
    ensures
        t == (Transfer { cfa_slot, new_sp, arg0, arg1 }),
{
    Transfer { cfa_slot, new_sp, arg0, arg1 }
}

} // verus!
