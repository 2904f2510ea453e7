//! Values of any size as the payload of a switch.
//!
//! A switch carries [`NUM_REGS`] machine words. A value whose bytes fit in
//! them travels in them; any other stays where it is, on the stack of the
//! thread that sends it, and its address travels instead.
use vstd::prelude::*;
use vstd::arithmetic::power::pow;
use crate::arch::{Arch, Store, Transfer, lemma_word_is_pow2, word, word_size};
use crate::stack::Stack;
use crate::stack_pointer::{StackPointer, cfa_slot, initialised};

verus! {

/// The number of machine words a switch carries.
pub const NUM_REGS: usize = 2;

/// A value as it arrives.
#[derive(Debug, PartialEq, Eq)]
pub enum FatArg {
    /// The bytes of the value, which travelled in the registers.
    InRegs(Vec<u8>),
    /// The address of the value, which is to be read from there; the thread
    /// that sent it has given it up.
    ViaPointer(usize),
}

/// Whether a value of `size` bytes travels in the registers.
pub open spec fn fits(size: int) -> bool {
    size <= NUM_REGS * word_size()
}

/// The number that `bytes` spell, least significant byte first.
pub open spec fn le_word(bytes: Seq<u8>) -> nat
    decreases bytes.len(),
{
    if bytes.len() == 0 {
        0
    } else {
        bytes[0] as nat + 256 * le_word(bytes.skip(1))
    }
}

/// The `n` least significant bytes of `word`, least significant first.
pub open spec fn le_bytes(word: nat, n: nat) -> Seq<u8>
    decreases n,
{
    if n == 0 {
        Seq::empty()
    } else {
        seq![(word % 256) as u8] + le_bytes(word / 256, (n - 1) as nat)
    }
}

/// The number of bytes of a value of `size` bytes that travel in the first
/// register.
pub open spec fn low_len(size: int) -> int {
    if size <= word_size() {
        size
    } else {
        word_size()
    }
}

/// The registers that carry a value with the given bytes: the first word of
/// the value, then the rest, each as the machine holds it in memory.
pub open spec fn pack(bytes: Seq<u8>) -> Seq<usize> {
    let low = low_len(bytes.len() as int);
    seq![le_word(bytes.take(low)) as usize, le_word(bytes.skip(low)) as usize]
}

/// The `size` bytes that the registers carry.
pub open spec fn unpack(regs: Seq<usize>, size: int) -> Seq<u8> {
    let low = low_len(size);
    le_bytes(regs[0] as nat, low as nat) + le_bytes(regs[1] as nat, (size - low) as nat)
}

/// The bytes of a number are less than the power of 256 that their count
/// gives.
pub proof fn lemma_le_word_bound(bytes: Seq<u8>)
    ensures
        le_word(bytes) < pow(256, bytes.len()),
    decreases bytes.len(),
{
    reveal(pow);
    if bytes.len() > 0 {
        lemma_le_word_bound(bytes.skip(1));
    }
}

/// Up to a word's worth of bytes spell a number that a word holds.
pub proof fn lemma_le_word_fits(bytes: Seq<u8>)
    requires
        bytes.len() <= word_size(),
    ensures
        le_word(bytes) <= usize::MAX,
{
    lemma_le_word_bound(bytes);
    lemma_word_is_pow2();
    vstd::layout::unsigned_int_max_values();
    broadcast use vstd::layout::layout_of_primitives;

    vstd::arithmetic::power::lemma_pow_increases(256, bytes.len(), word_size() as nat);
}

/// Spelling a number and reading the bytes again gives the bytes back.
pub proof fn lemma_le_bytes_of_le_word(bytes: Seq<u8>)
    ensures
        le_bytes(le_word(bytes), bytes.len()) == bytes,
    decreases bytes.len(),
{
    if bytes.len() > 0 {
        let rest = bytes.skip(1);
        lemma_le_bytes_of_le_word(rest);
        let w = le_word(bytes);
        assert(w % 256 == bytes[0] as nat && w / 256 == le_word(rest)) by (nonlinear_arith)
            requires
                w == bytes[0] as nat + 256 * le_word(rest),
                bytes[0] < 256,
        ;
        assert(le_bytes(w, bytes.len()) =~= bytes);
    } else {
        assert(le_bytes(le_word(bytes), 0) =~= bytes);
    }
}

/// What is packed into the registers is what is unpacked from them.
pub proof fn lemma_unpack_pack(bytes: Seq<u8>)
    requires
        fits(bytes.len() as int),
    ensures
        unpack(pack(bytes), bytes.len() as int) == bytes,
{
    let low = low_len(bytes.len() as int);
    let head = bytes.take(low);
    let tail = bytes.skip(low);
    lemma_le_word_fits(head);
    lemma_le_word_fits(tail);
    lemma_le_bytes_of_le_word(head);
    lemma_le_bytes_of_le_word(tail);
    assert(head + tail =~= bytes);
}

/// The number that the bytes of `value` from `start` up to `end` spell.
fn word_from_bytes(value: &[u8], start: usize, end: usize) -> (w: usize)
    requires
        start <= end <= value@.len(),
        end - start <= word_size(),
    ensures
        w == le_word(value@.subrange(start as int, end as int)),
{
    let mut w: usize = 0;
    let mut i: usize = end;
    while i > start
        invariant
            start <= i <= end <= value@.len(),
            end - start <= word_size(),
            w == le_word(value@.subrange(i as int, end as int)),
        decreases i,
    {
        i = i - 1;
        proof {
            let s = value@.subrange(i as int, end as int);
            assert(s.skip(1) =~= value@.subrange(i + 1, end as int));
            lemma_le_word_fits(s);
        }
        w = w * 256 + value[i] as usize;
    }
    w
}

/// The `n` least significant bytes of `word`.
fn bytes_from_word(word: usize, n: usize) -> (bytes: Vec<u8>)
    ensures
        bytes@ == le_bytes(word as nat, n as nat),
{
    let mut bytes: Vec<u8> = Vec::new();
    let mut w: usize = word;
    let mut i: usize = 0;
    while i < n
        invariant
            i <= n,
            bytes@ + le_bytes(w as nat, (n - i) as nat) == le_bytes(word as nat, n as nat),
        decreases n - i,
    {
        proof {
            let rest = le_bytes((w / 256) as nat, (n - i - 1) as nat);
            assert((bytes@ + seq![(w % 256) as u8]) + rest =~= bytes@ + (seq![(w % 256) as u8]
                + rest));
        }
        bytes.push((w % 256) as u8);
        w = w / 256;
        i = i + 1;
    }
    proof {
        assert(bytes@ + le_bytes(w as nat, 0) =~= bytes@);
    }
    bytes
}

/// The registers that carry a value: its bytes if they fit, else its address.
///
/// `value` holds the bytes of the value as they lie in memory, and `addr` is
/// where they lie. A value sent by address must stay in place until the
/// receiver has read it, and is the receiver's from then on.
pub fn to_regs(value: &[u8], addr: usize) -> (regs: [usize; NUM_REGS])
    ensures
        regs@ == to_regs_spec(value@, addr),
{
    let w: usize = word();
    let n: usize = value.len();
    if n <= NUM_REGS * w {
        let low: usize = if n <= w {
            n
        } else {
            w
        };
        proof {
            assert(value@.take(low as int) =~= value@.subrange(0, low as int));
            assert(value@.skip(low as int) =~= value@.subrange(low as int, n as int));
        }
        let r0: usize = word_from_bytes(value, 0, low);
        let r1: usize = word_from_bytes(value, low, n);
        let regs: [usize; NUM_REGS] = [r0, r1];
        proof {
            assert(regs@ =~= pack(value@));
        }
        regs
    } else {
        let regs: [usize; NUM_REGS] = [addr, 0];
        proof {
            assert(regs@ =~= seq![addr, 0usize]);
        }
        regs
    }
}

/// The value of `size` bytes that the registers carry: its bytes if they
/// fit, else the address to read it from.
pub fn from_regs(regs: [usize; NUM_REGS], size: usize) -> (arg: FatArg)
    ensures
        arg@ == from_regs_spec(regs@, size as int),
{
    let w: usize = word();
    if size <= NUM_REGS * w {
        let low: usize = if size <= w {
            size
        } else {
            w
        };
        let mut bytes: Vec<u8> = bytes_from_word(regs[0], low);
        let mut high: Vec<u8> = bytes_from_word(regs[1], size - low);
        bytes.append(&mut high);
        FatArg::InRegs(bytes)
    } else {
        FatArg::ViaPointer(regs[0])
    }
}

/// Plans the switch to the thread suspended at `new_sp` that hands it the
/// value `value`, which lies at `addr`.
pub fn swap(new_sp: StackPointer, value: &[u8], addr: usize) -> (t: Transfer)
    ensures
        t.cfa_slot is None,
        t.new_sp == new_sp,
        seq![t.arg0, t.arg1] == to_regs_spec(value@, addr),
{
    let regs: [usize; NUM_REGS] = to_regs(value, addr);
    StackPointer::swap(None, new_sp, regs[0], regs[1])
}

/// Plans a thread on `stack` that starts by running a closure: the initial
/// frame makes the first switch call `wrapper`, which receives in the
/// registers the closure whose bytes are `closure` and lie at `addr`, reads it
/// and calls it. Returns the words to write and, for when they are written,
/// the switch.
///
/// Control comes back to the caller only when the closure switches back.
pub fn init(arch: Arch, stack: &Stack, wrapper: usize, closure: &[u8], addr: usize) -> (r: (
    Vec<Store>,
    Transfer,
))
    requires
        arch.reserve() * word_size() < stack.size(),
    ensures
        initialised(arch, stack, wrapper, r.1.new_sp, r.0@),
        r.1.cfa_slot == Some(cfa_slot(stack) as usize),
        seq![r.1.arg0, r.1.arg1] == to_regs_spec(closure@, addr),
{
    let (sp, stores) = StackPointer::init(arch, stack, wrapper);
    let regs: [usize; NUM_REGS] = to_regs(closure, addr);
    let t: Transfer = StackPointer::swap(Some(stack), sp, regs[0], regs[1]);
    (stores, t)
}

/// The registers that carry the value with the bytes `value` that lies at
/// `addr`.
pub open spec fn to_regs_spec(value: Seq<u8>, addr: usize) -> Seq<usize> {
    if fits(value.len() as int) {
        pack(value)
    } else {
        seq![addr, 0usize]
    }
}

/// The value that the registers carry if it has `size` bytes.
pub open spec fn from_regs_spec(regs: Seq<usize>, size: int) -> FatArgView {
    if fits(size) {
        FatArgView::InRegs(unpack(regs, size))
    } else {
        FatArgView::ViaPointer(regs[0])
    }
}

/// A value as it arrives.
pub enum FatArgView {
    /// The bytes of the value.
    InRegs(Seq<u8>),
    /// The address of the value.
    ViaPointer(usize),
}

impl View for FatArg {
    type V = FatArgView;

    open spec fn view(&self) -> FatArgView {
        match self {
            FatArg::InRegs(bytes) => FatArgView::InRegs(bytes@),
            FatArg::ViaPointer(addr) => FatArgView::ViaPointer(*addr),
        }
    }
}

/// What a switch delivered, as a value of `size` bytes: the stack pointer of
/// the thread now suspended, and the value.
pub fn arrive(reply: (StackPointer, usize, usize), size: usize) -> (r: (StackPointer, FatArg))
    ensures
        r.0 == reply.0,
        r.1@ == from_regs_spec(seq![reply.1, reply.2], size as int),
{
    let regs: [usize; NUM_REGS] = [reply.1, reply.2];
    proof {
        assert(regs@ =~= seq![reply.1, reply.2]);
    }
    (reply.0, from_regs(regs, size))
}

/// A value that travels through a switch arrives as it was sent: with the
/// bytes it had if it fits in the registers, at the address it had if not.
pub proof fn lemma_value_round_trip(value: Seq<u8>, addr: usize)
    ensures
        from_regs_spec(to_regs_spec(value, addr), value.len() as int) == (if fits(
            value.len() as int,
        ) {
            FatArgView::InRegs(value)
        } else {
            FatArgView::ViaPointer(addr)
        }),
{
    if fits(value.len() as int) {
        lemma_unpack_pack(value);
    }
}

} // verus!
