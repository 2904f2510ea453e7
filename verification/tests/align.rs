use fringe::arch::x86_common::STACK_ALIGN;
use fringe::arch::{word, Arch};
use fringe::context::Context;
use fringe::stack::Stack;

/// Where the buffer of four mebibytes lies that the stacks are cut from: at
/// no particular alignment.
const STACK_BUF: usize = 0x6000_0003;
const STACK_BUF_LEN: usize = 4 << 20;
const SLOT: usize = 0x7fff_ff00;
const TRAMPOLINE: usize = 0x40_2000;

/// Makes a thread on the stack that begins `off` bytes into the buffer, and
/// follows the first switch into it up to the entry of its function, where
/// the compiler takes the stack to be aligned.
fn double_swap(off: u8) {
    let w = word();
    for arch in [Arch::X86_64, Arch::X86 { trampoline: TRAMPOLINE }] {
        let stack = Stack::new(STACK_BUF + off as usize, STACK_BUF + STACK_BUF_LEN).unwrap();
        assert_eq!(stack.limit(), STACK_BUF + off as usize);
        let base = stack.base();
        let (mut ctx, frame) = Context::new(arch, stack, 0x40_1000);
        for store in &frame {
            assert!(STACK_BUF + off as usize <= store.addr);
            assert!(store.addr + w <= STACK_BUF + STACK_BUF_LEN);
            assert_eq!(store.addr % w, 0);
        }
        println!("Round {}: start!", off);
        let t = ctx.swap(SLOT, SLOT);
        let entry = match arch {
            Arch::X86_64 => t.new_sp.0 + w,
            Arch::X86 { .. } => t.new_sp.0 - 3 * w,
        };
        assert!(entry < base);
        assert_eq!((entry + w) % STACK_ALIGN, 0);
    }
}

#[test]
#[allow(non_snake_case)]
fn offset_0x0() {
    double_swap(0x0)
}

#[test]
#[allow(non_snake_case)]
fn offset_0x1() {
    double_swap(0x1)
}

#[test]
#[allow(non_snake_case)]
fn offset_0x2() {
    double_swap(0x2)
}

#[test]
#[allow(non_snake_case)]
fn offset_0x3() {
    double_swap(0x3)
}

#[test]
#[allow(non_snake_case)]
fn offset_0x4() {
    double_swap(0x4)
}

#[test]
#[allow(non_snake_case)]
fn offset_0x5() {
    double_swap(0x5)
}

#[test]
#[allow(non_snake_case)]
fn offset_0x6() {
    double_swap(0x6)
}

#[test]
#[allow(non_snake_case)]
fn offset_0x7() {
    double_swap(0x7)
}

#[test]
#[allow(non_snake_case)]
fn offset_0x8() {
    double_swap(0x8)
}

#[test]
#[allow(non_snake_case)]
fn offset_0x9() {
    double_swap(0x9)
}

#[test]
#[allow(non_snake_case)]
fn offset_0xA() {
    double_swap(0xA)
}

#[test]
#[allow(non_snake_case)]
fn offset_0xB() {
    double_swap(0xB)
}

#[test]
#[allow(non_snake_case)]
fn offset_0xC() {
    double_swap(0xC)
}

#[test]
#[allow(non_snake_case)]
fn offset_0xD() {
    double_swap(0xD)
}

#[test]
#[allow(non_snake_case)]
fn offset_0xE() {
    double_swap(0xE)
}

#[test]
#[allow(non_snake_case)]
fn offset_0xF() {
    double_swap(0xF)
}
