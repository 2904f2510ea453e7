//! The machine as the library sees it: addresses, words to store, switches to
//! perform, and the architectures that perform them.
//!
//! Nothing here touches the machine. A frame is planned as the words to write
//! and a switch as its operands; the embedding program writes the words and
//! performs the switch with the machine code of its architecture, and hands
//! back what the switch delivered.
use vstd::prelude::*;
use vstd::arithmetic::power2::{is_pow2, is_pow2_exists, is_pow2_equiv, pow2, lemma_pow2_strictly_increases};
use vstd::bits::{low_bits_mask, lemma_usize_low_bits_mask_is_mod};
use vstd::layout::{size_of, unsigned_int_max_values, layout_for_type_is_valid};
use crate::stack_pointer::StackPointer;

pub mod x86;
pub mod x86_64;
pub mod x86_common;

verus! {

/// The number of bytes in a machine word.
pub open spec fn word_size() -> int {
    usize::BITS as int / 8
}

/// `addr` rounded down to a multiple of `n`.
pub open spec fn round_down(addr: int, n: int) -> int {
    addr - addr % n
}

/// `addr` is a multiple of `n`.
pub open spec fn is_aligned(addr: int, n: int) -> bool {
    addr % n == 0
}

/// The number of bytes in a machine word.
pub fn word() -> (w: usize)
    ensures
        w == word_size(),
        w == 4 || w == 8,
{
    broadcast use vstd::layout::layout_of_primitives;

    core::mem::size_of::<usize>()
}

/// Rounding down yields the greatest multiple of `n` that does not exceed `addr`.
pub proof fn lemma_round_down_aligned(addr: int, n: int)
    requires
        n > 0,
    ensures
        is_aligned(round_down(addr, n), n),
        round_down(addr, n) <= addr < round_down(addr, n) + n,
        is_aligned(addr, n) ==> round_down(addr, n) == addr,
        addr >= 0 ==> round_down(addr, n) >= 0,
{
    if addr >= 0 {
        vstd::arithmetic::div_mod::lemma_mod_decreases(addr as nat, n as nat);
    }
    vstd::arithmetic::div_mod::lemma_fundamental_div_mod(addr, n);
    vstd::arithmetic::div_mod::lemma_mod_multiples_basic(addr / n, n);
    assert(round_down(addr, n) == n * (addr / n));
    vstd::arithmetic::mul::lemma_mul_is_commutative(n, addr / n);
    vstd::arithmetic::div_mod::lemma_mod_bound(addr, n);
}

/// The size of a machine word is a power of two.
pub proof fn lemma_word_is_pow2()
    ensures
        is_pow2(word_size()),
        word_size() == 4 || word_size() == 8,
{
    vstd::arithmetic::power2::lemma2_to64();
    vstd::arithmetic::power2::lemma_pow2(2);
    vstd::arithmetic::power2::lemma_pow2(3);
    assert(vstd::arithmetic::power::pow(2, 2) == 4);
    assert(vstd::arithmetic::power::pow(2, 3) == 8);
    assert(vstd::arithmetic::power2::is_pow2_exists(4));
    assert(vstd::arithmetic::power2::is_pow2_exists(8));
    vstd::arithmetic::power2::is_pow2_equiv(4);
    vstd::arithmetic::power2::is_pow2_equiv(8);
}

/// A multiple less the modulus is a multiple.
pub proof fn lemma_aligned_minus(x: int, n: int)
    requires
        n > 0,
        is_aligned(x, n),
    ensures
        is_aligned(x - n, n),
{
    vstd::arithmetic::div_mod::lemma_mod_sub_multiples_vanish(x, n);
}

/// A multiple of `n` is a multiple of what divides `n`.
pub proof fn lemma_aligned_to_divisor(x: int, n: int, d: int)
    requires
        n > 0,
        d > 0,
        is_aligned(x, n),
        n % d == 0,
    ensures
        is_aligned(x, d),
{
    vstd::arithmetic::div_mod::lemma_fundamental_div_mod(x, n);
    vstd::arithmetic::div_mod::lemma_fundamental_div_mod(n, d);
    let q: int = x / n;
    let k: int = n / d;
    assert(x == n * q);
    assert(n == d * k);
    assert(x == d * (k * q)) by (nonlinear_arith)
        requires
            x == n * q,
            n == d * k,
    ;
    vstd::arithmetic::div_mod::lemma_mod_multiples_basic(k * q, d);
    vstd::arithmetic::mul::lemma_mul_is_commutative(d, k * q);
}

/// The difference of two multiples is a multiple.
pub proof fn lemma_aligned_difference(a: int, b: int, n: int)
    requires
        n > 0,
        is_aligned(a, n),
        is_aligned(b, n),
    ensures
        is_aligned(a - b, n),
{
    vstd::arithmetic::div_mod::lemma_sub_mod_noop(a, b, n);
    vstd::arithmetic::div_mod::lemma_small_mod(0, n as nat);
    assert(((a % n) - (b % n)) % n == 0);
}

/// Clearing the bits below a power of two rounds down to a multiple of it.
pub proof fn lemma_mask_rounds_down(x: usize, n: usize)
    requires
        is_pow2(n as int),
    ensures
        n > 0,
        x & !((n - 1) as usize) == round_down(x as int, n as int),
{
    is_pow2_equiv(n as int);
    assert(is_pow2_exists(n as int));
    let e: nat = choose|e: nat| vstd::arithmetic::power::pow(2, e) == n as int;
    vstd::arithmetic::power2::lemma_pow2_pos(e);
    assert(pow2(e) == n);
    unsigned_int_max_values();
    if e >= usize::BITS {
        if e > usize::BITS {
            lemma_pow2_strictly_increases(usize::BITS as nat, e);
        }
        assert(false);
    }
    lemma_usize_low_bits_mask_is_mod(x, e);
    let m: usize = (n - 1) as usize;
    assert(low_bits_mask(e) as usize == m);
    assert(x & m == x % n);
    assert(x & !m == x - (x & m)) by (bit_vector);
}

/// Aligns the address `sp` down to `n`, which is to be a power of two.
///
/// Whatever `n` is, the bits of `sp` below those set in `n - 1` are cleared.
pub fn align_down_mut(sp: usize, n: usize) -> (r: usize)
    requires
        n > 0,
    ensures
        r == sp & !((n - 1) as usize),
        r <= sp,
        is_pow2(n as int) ==> r == round_down(sp as int, n as int) && is_aligned(r as int, n as int),
{
    let mask: usize = n - 1;
    proof {
        assert(sp & !mask <= sp) by (bit_vector);
        if is_pow2(n as int) {
            lemma_mask_rounds_down(sp, n);
            lemma_round_down_aligned(sp as int, n as int);
        }
    }
    sp & !mask
}

/// The address `count` elements of type `T` away from `ptr`, in either
/// direction.
pub fn offset_mut<T>(ptr: usize, count: isize) -> (r: usize)
    requires
        0 <= ptr + count * size_of::<T>() <= usize::MAX,
    ensures
        r == ptr + count * size_of::<T>(),
{
    layout_for_type_is_valid::<T>();
    let size: usize = core::mem::size_of::<T>();
    if count >= 0 {
        let n: usize = count as usize;
        assert(n * size == count * size_of::<T>());
        assert(0 <= n * size) by (nonlinear_arith)
            requires
                n >= 0,
                size >= 0,
        ;
        ptr + n * size
    } else {
        let n: usize = if count == isize::MIN {
            (isize::MAX as usize) + 1
        } else {
            (-count) as usize
        };
        assert(n * size == -(count * size_of::<T>())) by (nonlinear_arith)
            requires
                n == -count,
                size == size_of::<T>(),
        ;
        ptr - n * size
    }
}

/// The architecture whose backend performs the switches, as the embedding
/// program has configured it.
#[derive(Clone, Copy, Debug, PartialEq, Eq)]
pub enum Arch {
    /// 32-bit x86. A fresh stack is entered through a pair of trampolines,
    /// the first of which stands at `trampoline`.
    X86 { trampoline: usize },
    /// 64-bit x86. A fresh stack is entered by the switch itself.
    X86_64,
}

/// One machine word to be written to memory.
#[derive(Clone, Copy, Debug, PartialEq, Eq)]
pub struct Store {
    /// The address of the word.
    pub addr: usize,
    /// The value to write.
    pub word: usize,
}

/// A transfer of control to perform: the operands of the switch primitive.
///
/// The primitive first stores the current stack pointer at `cfa_slot`, if
/// there is one, so that an unwinder that reaches the bottom of the new stack
/// continues on this one. It then suspends the current thread of execution and
/// resumes the one that was suspended at `new_sp`, which receives the stack
/// pointer of the thread just suspended together with `arg0` and `arg1`.
#[derive(Clone, Copy, Debug, PartialEq, Eq)]
pub struct Transfer {
    /// Where to record the current stack pointer.
    pub cfa_slot: Option<usize>,
    /// The thread of execution to resume.
    pub new_sp: StackPointer,
    /// The first payload word.
    pub arg0: usize,
    /// The second payload word.
    pub arg1: usize,
}

/// The state of the machine at the instant the first instruction of a
/// function runs.
pub struct Entry {
    /// The address of the function.
    pub pc: usize,
    /// The stack pointer.
    pub sp: int,
}

/// The words in memory, by address.
pub type Memory = Map<int, usize>;

/// `mem` after the store `s`.
pub open spec fn write_word(mem: Memory, s: Store) -> Memory {
    mem.insert(s.addr as int, s.word)
}

/// `mem` after `stores`, performed from first to last.
pub open spec fn write_all(mem: Memory, stores: Seq<Store>) -> Memory
    decreases stores.len(),
{
    if stores.len() == 0 {
        mem
    } else {
        write_word(write_all(mem, stores.drop_last()), stores.last())
    }
}

/// The number of words that a switch pushes onto the stack of the thread it
/// suspends: the register that the compiler keeps to itself, the frame
/// pointer, and the address at which the thread continues. As many are popped
/// when the thread is resumed.
pub const SWITCH_WORDS: usize = 3;

/// The stack pointer under which a thread is suspended when it performs a
/// switch while its stack pointer is `sp`.
pub open spec fn suspended_sp(sp: int) -> int {
    sp - SWITCH_WORDS * word_size()
}

/// The stack pointer with which a thread that was suspended under `saved`
/// continues after a switch has resumed it.
pub open spec fn resumed_sp(saved: int) -> int {
    saved + SWITCH_WORDS * word_size()
}

/// What the thread resumed by the transfer `t` receives when a thread whose
/// stack pointer is `sp` performs `t`: the stack pointer under which that
/// thread is now suspended, and the payload. A thread resumed for the first
/// time receives the three as the arguments of its function; any other, as
/// the result of the switch that suspended it.
pub open spec fn delivered(t: Transfer, sp: int) -> (StackPointer, usize, usize) {
    (StackPointer(suspended_sp(sp) as usize), t.arg0, t.arg1)
}

impl Arch {
    /// The number of words in the frame that `init` lays on a fresh stack.
    pub open spec fn frame_words(self) -> int {
        match self {
            Arch::X86 { .. } => x86::FRAME_WORDS as int,
            Arch::X86_64 => x86_64::FRAME_WORDS as int,
        }
    }

    /// The number of words between the base of a fresh stack and the stack
    /// pointer at the instant the function is entered.
    pub open spec fn entry_depth(self) -> int {
        match self {
            Arch::X86 { .. } => x86::ENTRY_DEPTH as int,
            Arch::X86_64 => x86_64::ENTRY_DEPTH as int,
        }
    }

    /// The number of words below its base that a fresh stack must hold: those
    /// of the initial frame and those that entering the function pushes.
    pub open spec fn reserve(self) -> int {
        if self.entry_depth() > self.frame_words() {
            self.entry_depth()
        } else {
            self.frame_words()
        }
    }

    /// The number of words that lie between the stack pointer of a thread
    /// planned by [`Registers::new`](x86_common::Registers::new) and a
    /// multiple of the stack alignment once its frame is consumed.
    pub open spec fn init_offset(self) -> int {
        match self {
            Arch::X86 { .. } => x86::INIT_OFFSET as int,
            Arch::X86_64 => x86_64::INIT_OFFSET as int,
        }
    }

    /// The frame that `init` lays on a fresh stack whose base is `base`.
    pub open spec fn frame(self, base: int, fun: usize) -> Seq<Store> {
        match self {
            Arch::X86 { trampoline } => x86::frame(base, fun, trampoline),
            Arch::X86_64 => x86_64::frame(base, fun),
        }
    }

    /// Where the first switch into a thread suspended at `sp` lands.
    pub open spec fn first_entry(self, mem: Memory, sp: int) -> Entry {
        match self {
            Arch::X86 { .. } => x86::first_entry(mem, sp),
            Arch::X86_64 => x86_64::first_entry(mem, sp),
        }
    }
}

impl Arch {
    /// The number of words below its base that a fresh stack must hold.
    pub fn reserve_words(self) -> (n: usize)
        ensures
            n == self.reserve(),
    {
        match self {
            Arch::X86 { .. } => x86::ENTRY_DEPTH,
            Arch::X86_64 => x86_64::FRAME_WORDS,
        }
    }

    /// The number of words of [`init_offset`](Self::init_offset).
    pub fn init_offset_words(self) -> (n: usize)
        ensures
            n == self.init_offset(),
            n <= 4,
    {
        match self {
            Arch::X86 { .. } => x86::INIT_OFFSET,
            Arch::X86_64 => x86_64::INIT_OFFSET,
        }
    }
}

/// The first switch into a fresh stack calls the function the stack was
/// initialised with, with the stack pointer one word below a multiple of
/// [`STACK_ALIGN`](x86_common::STACK_ALIGN) and within the words reserved.
pub proof fn lemma_fresh_stack_enters_fun(arch: Arch, base: int, fun: usize, mem: Memory)
    requires
        is_aligned(base, x86_common::STACK_ALIGN as int),
        arch.reserve() * word_size() <= base <= usize::MAX,
    ensures
        ({
            let sp = base - arch.frame_words() * word_size();
            let entry = arch.first_entry(write_all(mem, arch.frame(base, fun)), sp);
            &&& entry.pc == fun
            &&& entry.sp == base - arch.entry_depth() * word_size()
            &&& is_aligned(entry.sp + word_size(), x86_common::STACK_ALIGN as int)
        }),
{
    reveal_with_fuel(write_all, 7);
    lemma_word_is_pow2();
    match arch {
        Arch::X86 { trampoline } => {
            lemma_aligned_to_divisor(
                base,
                x86_common::STACK_ALIGN as int,
                word_size(),
            );
            x86::lemma_frame_addrs(base, fun, trampoline);
            let frame = x86::frame(base, fun, trampoline);
            assert(frame[0].addr == base - 1 * word_size());
            assert(frame[1].addr == base - 2 * word_size());
            assert(frame[2].addr == base - 3 * word_size());
            assert(frame[3].addr == base - 4 * word_size());
            assert(frame[4].addr == base - 5 * word_size());
            assert(frame[5].addr == base - 6 * word_size());
            assert(frame.drop_last().drop_last().last() == frame[3]);
            assert(frame.drop_last().last() == frame[4]);
        },
        Arch::X86_64 => {
            let frame = x86_64::frame(base, fun);
            assert(frame.drop_last().last() == frame[0]);
        },
    }
}

/// A payload passes through a switch unchanged, and a thread that is switched
/// back to continues with the stack pointer it had.
///
/// A thread whose stack pointer is `a_sp` switches to the thread suspended at
/// `to_b` with the payload `a0` and `a1`. That thread, whose stack pointer is
/// then `b_sp`, switches to the stack pointer it received with the payload it
/// received. The first thread receives `a0` and `a1`.
pub proof fn lemma_payload_round_trip(a_sp: int, b_sp: int, to_b: StackPointer, a0: usize, a1: usize)
    requires
        SWITCH_WORDS * word_size() <= a_sp <= usize::MAX,
    ensures
        ({
            let there = Transfer { cfa_slot: None, new_sp: to_b, arg0: a0, arg1: a1 };
            let got = delivered(there, a_sp);
            let back = Transfer { cfa_slot: None, new_sp: got.0, arg0: got.1, arg1: got.2 };
            let returned = delivered(back, b_sp);
            &&& got.1 == a0
            &&& got.2 == a1
            &&& returned.1 == a0
            &&& returned.2 == a1
            &&& resumed_sp(back.new_sp.0 as int) == a_sp
        }),
{
}

/// Wherever the memory of a stack begins and ends, the function of a thread
/// made on it is entered with the stack pointer within the stack and one word
/// below a multiple of [`STACK_ALIGN`](x86_common::STACK_ALIGN): the base of
/// the stack is the end of the memory rounded down, and the words down to the
/// entry keep what alignment the base has.
///
/// The stack is the one that [`Stack::new`](crate::stack::Stack::new) makes
/// of the memory from `start` to `end`, which is to hold more than the words
/// that `arch` reserves.
pub proof fn lemma_alignment_invariance(arch: Arch, start: usize, end: usize)
    requires
        start + arch.reserve() * word_size() < round_down(
            end as int,
            x86_common::STACK_ALIGN as int,
        ),
    ensures
        ({
            let base = round_down(end as int, x86_common::STACK_ALIGN as int);
            let sp = base - arch.frame_words() * word_size();
            forall|fun: usize, mem: Memory|
                {
                    let entry = #[trigger] arch.first_entry(
                        write_all(mem, arch.frame(base, fun)),
                        sp,
                    );
                    &&& entry.pc == fun
                    &&& start < entry.sp < base
                    &&& is_aligned(entry.sp + word_size(), x86_common::STACK_ALIGN as int)
                }
        }),
{
    let base = round_down(end as int, x86_common::STACK_ALIGN as int);
    let sp = base - arch.frame_words() * word_size();
    lemma_round_down_aligned(end as int, x86_common::STACK_ALIGN as int);
    assert forall|fun: usize, mem: Memory|
        {
            let entry = #[trigger] arch.first_entry(write_all(mem, arch.frame(base, fun)), sp);
            &&& entry.pc == fun
            &&& start < entry.sp < base
            &&& is_aligned(entry.sp + word_size(), x86_common::STACK_ALIGN as int)
        } by {
        lemma_fresh_stack_enters_fun(arch, base, fun, mem);
    }
}

/// The number of words in the frame that [`initialise_call_frame`] lays.
pub const BOOTSTRAP_FRAME_WORDS: usize = 3;

/// The frame that [`initialise_call_frame`] lays below `top`, in the order in
/// which it is pushed.
pub open spec fn bootstrap_frame(top: int, stack: usize, init: usize, bootstrap: usize) -> Seq<
    Store,
> {
    seq![
        Store { addr: (top - word_size()) as usize, word: init },
        Store { addr: (top - 2 * word_size()) as usize, word: stack },
        Store { addr: (top - 3 * word_size()) as usize, word: bootstrap },
    ]
}

/// Lays the frame from which the bootstrap routine starts a thread on a new,
/// unused stack: the function `init` that the thread is to run, the address
/// `stack_addr` at which the embedding program keeps the stack, and, lowest,
/// the address `bootstrap` of the routine, at which the first switch
/// continues. The routine pops the other two, calls the function and gives
/// up the stack. Returns the stack pointer to switch to and the words to
/// write.
pub fn initialise_call_frame(
    stack: &crate::stack::Stack,
    stack_addr: usize,
    init: usize,
    bootstrap: usize,
) -> (r: (StackPointer, Vec<Store>))
    requires
        BOOTSTRAP_FRAME_WORDS * word_size() < stack.size(),
    ensures
        r.0.0 == stack.spec_top() - BOOTSTRAP_FRAME_WORDS * word_size(),
        r.1@ == bootstrap_frame(stack.spec_top() as int, stack_addr, init, bootstrap),
        stack.spec_limit() < r.0.0 < stack.spec_base(),
{
    let top: usize = stack.top();
    let w: usize = word();
    let mut stores: Vec<Store> = Vec::new();
    stores.push(Store { addr: top - w, word: init });
    stores.push(Store { addr: top - 2 * w, word: stack_addr });
    stores.push(Store { addr: top - 3 * w, word: bootstrap });
    proof {
        assert(stores@ =~= bootstrap_frame(top as int, stack_addr, init, bootstrap));
    }
    (StackPointer(top - 3 * w), stores)
}

/// Plans the switch to the thread suspended at `stack_ptr`, without payload.
pub fn swap_stack(stack_ptr: usize) -> (t: Transfer)
    ensures
        t == (Transfer { cfa_slot: None, new_sp: StackPointer(stack_ptr), arg0: 0, arg1: 0 }),
{
    Transfer { cfa_slot: None, new_sp: StackPointer(stack_ptr), arg0: 0, arg1: 0 }
}

} // verus!
