use fringe::arch::x86_common::STACK_ALIGN;
use fringe::arch::{word, Arch, Store, Transfer, SWITCH_WORDS};
use fringe::context::Context;
use fringe::stack::Stack;
use fringe::stack_pointer::StackPointer;
use std::collections::HashMap;

const STACK_START: usize = 0x7000_0000;
const NATIVE_SP: usize = 0x7fff_f000;
const SLOT: usize = 0x7fff_ff00;
const TRAMPOLINE: usize = 0x40_2000;

/// The machine as the tests play it: memory, the stack pointer of the thread
/// that runs, and what the last switch delivered.
struct Machine {
    arch: Arch,
    mem: HashMap<usize, usize>,
    sp: usize,
    entered: Option<usize>,
}

impl Machine {
    fn new(arch: Arch) -> Machine {
        Machine { arch, mem: HashMap::new(), sp: NATIVE_SP, entered: None }
    }

    fn write_all(&mut self, stores: &[Store]) {
        for store in stores {
            self.mem.insert(store.addr, store.word);
        }
    }

    /// Performs a switch into a thread that has not run yet: returns what its
    /// function receives.
    fn enter(&mut self, t: Transfer) -> (StackPointer, usize, usize) {
        let w = word();
        let suspended = self.sp - SWITCH_WORDS * w;
        if let Some(slot) = t.cfa_slot {
            self.mem.insert(slot, self.sp);
        }
        let (pc, sp) = match self.arch {
            Arch::X86_64 => (self.mem[&t.new_sp.0], t.new_sp.0 + w),
            Arch::X86 { trampoline } => {
                assert_eq!(self.mem[&(t.new_sp.0 + w)], trampoline);
                (self.mem[&(t.new_sp.0 + 2 * w)], t.new_sp.0 - 3 * w)
            }
        };
        assert_eq!((sp + w) % STACK_ALIGN, 0);
        self.entered = Some(pc);
        self.sp = sp;
        (StackPointer(suspended), t.arg0, t.arg1)
    }

    /// Performs a switch into a suspended thread: returns what its own switch
    /// returns to it.
    fn resume(&mut self, t: Transfer) -> (StackPointer, usize, usize) {
        let w = word();
        assert_eq!(t.cfa_slot, None);
        let suspended = self.sp - SWITCH_WORDS * w;
        self.sp = t.new_sp.0 + SWITCH_WORDS * w;
        (StackPointer(suspended), t.arg0, t.arg1)
    }
}

fn os_stack() -> Stack {
    Stack::new(STACK_START, STACK_START + (4 << 20)).unwrap()
}

#[test]
fn context() {
    const ADDER: usize = 0x40_1000;
    let mut machine = Machine::new(Arch::X86_64);
    let (mut ctx, frame) = Context::new(machine.arch, os_stack(), ADDER);
    machine.write_all(&frame);

    // The caller switches in with ten.
    let t = ctx.swap(SLOT, 10);
    let (sp, spp, arg) = machine.enter(t);
    assert_eq!(machine.entered, Some(ADDER));
    assert_eq!(spp, SLOT);
    // The adder records who resumed it, and switches back with one more.
    let arg = ctx.arrive(sp, arg);
    println!("it's alive! arg: {}", arg);
    let t = ctx.swap(SLOT, arg + 1);
    let (old_sp, old_spp, arg) = machine.resume(t);
    assert_eq!(old_spp, SLOT);
    let ret = ctx.arrive(old_sp, arg);
    assert_eq!(machine.sp, NATIVE_SP);
    assert_eq!(ret, 11);

    // The caller switches in with fifty.
    let t = ctx.swap(SLOT, 50);
    let (sp, _, arg) = machine.resume(t);
    let arg = ctx.arrive(sp, arg);
    println!("still alive! arg: {}", arg);
    let t = ctx.swap(SLOT, arg + 1);
    let (old_sp, _, arg) = machine.resume(t);
    let ret = ctx.arrive(old_sp, arg);
    assert_eq!(machine.sp, NATIVE_SP);
    assert_eq!(ret, 51);
}

#[test]
fn context_simd() {
    const PERMUTER: usize = 0x40_3000;
    let mut machine = Machine::new(Arch::X86_64);
    let (mut ctx, frame) = Context::new(machine.arch, os_stack(), PERMUTER);
    machine.write_all(&frame);

    let t = ctx.swap(SLOT, 10);
    let (sp, _, arg) = machine.enter(t);
    let first = ctx.arrive(sp, arg);
    // The permuter works on vectors that lie on its stack, which holds them
    // only if the stack is aligned.
    assert_eq!((machine.sp + word()) % STACK_ALIGN, 0);
    let x = [first as i32; 4];
    let y = [x[0] * x[0], x[1] * x[1], x[2] * x[2], x[3] * x[3]];
    println!("simd result: {:?}", y);
    let coroutine_sp = machine.sp;
    let t = ctx.swap(SLOT, 0);
    let (old_sp, _, arg) = machine.resume(t);
    ctx.arrive(old_sp, arg);

    // And again after a context switch.
    let t = ctx.swap(SLOT, 20);
    let (sp, _, arg) = machine.resume(t);
    ctx.arrive(sp, arg);
    assert_eq!(machine.sp, coroutine_sp);
    assert_eq!((machine.sp + word()) % STACK_ALIGN, 0);
    let y = [x[0] * x[0], x[1] * x[1], x[2] * x[2], x[3] * x[3]];
    println!("simd result: {:?}", y);
    let t = ctx.swap(SLOT, 0);
    let (old_sp, _, arg) = machine.resume(t);
    ctx.arrive(old_sp, arg);
    assert_eq!(machine.sp, NATIVE_SP);
}

#[test]
fn context_on_x86_enters_through_the_trampoline() {
    const ADDER: usize = 0x40_1000;
    let mut machine = Machine::new(Arch::X86 { trampoline: TRAMPOLINE });
    let (mut ctx, frame) = Context::new(machine.arch, os_stack(), ADDER);
    assert_eq!(frame.len(), 6);
    machine.write_all(&frame);
    let t = ctx.swap(SLOT, 10);
    let cfa_slot = t.cfa_slot.unwrap();
    let (sp, _, arg) = machine.enter(t);
    assert_eq!(machine.entered, Some(ADDER));
    // The topmost word of the new stack holds where the caller stood.
    assert_eq!(machine.mem[&cfa_slot], NATIVE_SP);
    assert_eq!(cfa_slot, STACK_START + (4 << 20) - word());
    assert_eq!(ctx.arrive(sp, arg), 10);
}

#[test]
fn only_the_first_swap_links_the_stacks() {
    let w = word();
    let (mut ctx, _) = Context::new(Arch::X86_64, os_stack(), 0x40_1000);
    let base = STACK_START + (4 << 20);
    let t = ctx.swap(SLOT, 1);
    assert_eq!(
        t,
        Transfer {
            cfa_slot: Some(base - w),
            new_sp: StackPointer(base - 2 * w),
            arg0: SLOT,
            arg1: 1,
        }
    );
    ctx.arrive(StackPointer(0x7fff_e000), 1);
    let t = ctx.swap(SLOT, 2);
    assert_eq!(
        t,
        Transfer { cfa_slot: None, new_sp: StackPointer(0x7fff_e000), arg0: SLOT, arg1: 2 }
    );
    let t = ctx.swap(SLOT, 3);
    assert_eq!(t.cfa_slot, None);
    assert_eq!(t.new_sp, StackPointer(0x7fff_e000));
}

#[test]
fn unwrap_of_a_context_never_entered_returns_the_stack() {
    let (ctx, _) = Context::new(Arch::X86_64, os_stack(), 0x40_1000);
    let stack = ctx.unwrap();
    assert_eq!(stack.limit(), STACK_START);
    assert_eq!(stack.base(), STACK_START + (4 << 20));
}

#[test]
fn drop_of_a_live_context_gives_up_the_stack() {
    let mut machine = Machine::new(Arch::X86_64);
    let (mut ctx, frame) = Context::new(machine.arch, os_stack(), 0x40_1000);
    machine.write_all(&frame);
    // In once and back once; the thread is suspended in the middle of its
    // function.
    let t = ctx.swap(SLOT, 1);
    let (sp, _, arg) = machine.enter(t);
    ctx.arrive(sp, arg);
    let t = ctx.swap(SLOT, 2);
    let (old_sp, _, arg) = machine.resume(t);
    assert_eq!(ctx.arrive(old_sp, arg), 2);
    // The stack comes back as it was handed in, with whatever frames it
    // holds.
    let stack = ctx.unwrap();
    assert_eq!(stack.limit(), STACK_START);
    assert_eq!(stack.base(), STACK_START + (4 << 20));
    drop(stack);
}

#[test]
fn loopback_returns_what_was_sent() {
    let mut machine = Machine::new(Arch::X86_64);
    let (mut ctx, frame) = Context::new(machine.arch, os_stack(), 0x40_4000);
    machine.write_all(&frame);
    let t = ctx.swap(SLOT, 0);
    let (sp, _, first) = machine.enter(t);
    let mut echo = ctx.arrive(sp, first);
    let coroutine_sp = machine.sp;
    for i in 0..100_000usize {
        // The coroutine sends back what it was sent.
        let t = ctx.swap(SLOT, echo);
        let (old_sp, _, arg) = machine.resume(t);
        let ret = ctx.arrive(old_sp, arg);
        assert_eq!(machine.sp, NATIVE_SP);
        assert_eq!(ret, if i == 0 { 0 } else { i - 1 });
        // The caller sends the next number.
        let t = ctx.swap(SLOT, i);
        let (sp, _, arg) = machine.resume(t);
        echo = ctx.arrive(sp, arg);
        assert_eq!(machine.sp, coroutine_sp);
        assert_eq!(echo, i);
    }
}

#[test]
fn payload_words_pass_unchanged() {
    let mut machine = Machine::new(Arch::X86_64);
    for (a0, a1) in [(0, 0), (1, 2), (usize::MAX, 0), (0, usize::MAX), (usize::MAX, usize::MAX)] {
        let t = StackPointer::swap(None, StackPointer(0x7000_8000), a0, a1);
        let (sp, b0, b1) = machine.resume(t);
        assert_eq!((b0, b1), (a0, a1));
        let back = StackPointer::swap(None, sp, b0, b1);
        let (_, c0, c1) = machine.resume(back);
        assert_eq!((c0, c1), (a0, a1));
        assert_eq!(machine.sp, NATIVE_SP);
    }
}
