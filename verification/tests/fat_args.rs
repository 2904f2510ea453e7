use fringe::arch::{word, Arch, Store, Transfer};
use fringe::fat_args::{arrive, from_regs, init, swap, to_regs, FatArg, NUM_REGS};
use fringe::stack::Stack;
use fringe::stack_pointer::StackPointer;

#[test]
fn two_registers_carry_a_value() {
    assert_eq!(NUM_REGS, 2);
}

#[test]
fn empty_value_travels_in_the_registers() {
    assert_eq!(to_regs(&[], 0x5000), [0, 0]);
    assert_eq!(from_regs([7, 9], 0), FatArg::InRegs(vec![]));
}

#[test]
fn bytes_are_packed_least_significant_first() {
    assert_eq!(to_regs(&[0x11], 0x5000), [0x11, 0]);
    assert_eq!(to_regs(&[0x11, 0x22], 0x5000), [0x2211, 0]);
    assert_eq!(to_regs(&[0x11, 0x22, 0x33], 0x5000), [0x33_2211, 0]);
    assert_eq!(to_regs(&[0, 0, 0, 1], 0x5000), [0x0100_0000, 0]);
    assert_eq!(to_regs(&[0xff; 4], 0x5000), [0xffff_ffff, 0]);
}

#[test]
fn a_word_is_packed_as_it_lies_in_memory() {
    let value: usize = 0x0123_4567_89ab_cdef_u64 as usize;
    assert_eq!(to_regs(&value.to_le_bytes(), 0x5000), [value, 0]);
    assert_eq!(from_regs([value, 0], word()), FatArg::InRegs(value.to_le_bytes().to_vec()));
}

#[test]
fn second_register_takes_what_the_first_cannot() {
    let w = word();
    let mut bytes = vec![0xaa; w];
    bytes.push(0x01);
    bytes.push(0x02);
    assert_eq!(to_regs(&bytes, 0x5000), [usize::MAX / 0xff * 0xaa, 0x0201]);
    let full = vec![0xff; 2 * w];
    assert_eq!(to_regs(&full, 0x5000), [usize::MAX, usize::MAX]);
    assert_eq!(from_regs([usize::MAX, usize::MAX], 2 * w), FatArg::InRegs(full));
}

#[test]
fn value_too_big_for_the_registers_travels_by_address() {
    let w = word();
    let bytes = vec![0x5a; 2 * w + 1];
    assert_eq!(to_regs(&bytes, 0x5000), [0x5000, 0]);
    assert_eq!(from_regs([0x5000, 0x1234], 2 * w + 1), FatArg::ViaPointer(0x5000));
    assert_eq!(from_regs([0x5000, 0], usize::MAX), FatArg::ViaPointer(0x5000));
}

#[test]
fn unpacking_reads_only_the_bytes_of_the_value() {
    assert_eq!(from_regs([0x4433_2211, 0x99], 3), FatArg::InRegs(vec![0x11, 0x22, 0x33]));
    let w = word();
    let mut bytes = 0x4433_2211usize.to_le_bytes().to_vec();
    bytes.push(0x99);
    assert_eq!(from_regs([0x4433_2211, 0xff99], w + 1), FatArg::InRegs(bytes));
}

#[test]
fn values_arrive_as_they_were_sent() {
    let w = word();
    for len in 0..=(2 * w + 3) {
        let bytes: Vec<u8> = (0..len).map(|i| (i * 37 + 11) as u8).collect();
        let regs = to_regs(&bytes, 0x6000);
        let expected =
            if len <= 2 * w { FatArg::InRegs(bytes.clone()) } else { FatArg::ViaPointer(0x6000) };
        assert_eq!(from_regs(regs, len), expected);
    }
}

#[test]
fn swap_carries_the_value_in_the_payload() {
    let t = swap(StackPointer(0x7000), &[1, 2, 3], 0x5000);
    assert_eq!(
        t,
        Transfer { cfa_slot: None, new_sp: StackPointer(0x7000), arg0: 0x03_0201, arg1: 0 }
    );
    let big = [9u8; 40];
    let t = swap(StackPointer(0x7000), &big, 0x5000);
    assert_eq!(t, Transfer { cfa_slot: None, new_sp: StackPointer(0x7000), arg0: 0x5000, arg1: 0 });
}

#[test]
fn arrive_unpacks_what_a_switch_delivered() {
    let (sp, value) = arrive((StackPointer(0x7100), 0x03_0201, 0), 3);
    assert_eq!(sp, StackPointer(0x7100));
    assert_eq!(value, FatArg::InRegs(vec![1, 2, 3]));
    let (sp, value) = arrive((StackPointer(0x7100), 0x5000, 0), 40);
    assert_eq!(sp, StackPointer(0x7100));
    assert_eq!(value, FatArg::ViaPointer(0x5000));
}

#[test]
fn init_lays_the_frame_and_hands_over_the_closure() {
    let w = word();
    let stack = Stack::new(0x1000, 0x8000).unwrap();
    let (stores, t) = init(Arch::X86_64, &stack, 0x40_5000, &[0xab, 0xcd], 0x5000);
    assert_eq!(
        stores,
        vec![Store { addr: 0x8000 - w, word: 0 }, Store { addr: 0x8000 - 2 * w, word: 0x40_5000 }]
    );
    assert_eq!(
        t,
        Transfer {
            cfa_slot: Some(0x8000 - w),
            new_sp: StackPointer(0x8000 - 2 * w),
            arg0: 0xcdab,
            arg1: 0,
        }
    );
}
