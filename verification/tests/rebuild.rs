use fringe::arch::{word, Arch};
use fringe::pattern::cycle::{Cycle, C1, C2};
use fringe::session::context::{Context, RebuildRaw, ThreadLocals};
use fringe::session::cycle::{pack_args, ArgsRaw, ExitedArgs, YieldedArgs};
use fringe::session::safer_rebuild::{Either, Envelope, Rebuild};
use fringe::stack::Stack;
use fringe::stack_pointer::StackPointer;
use std::marker::PhantomData;

fn suspended(sp: usize) -> Context<u8, Stack> {
    let stack = Stack::new(0x1000, 0x2000).unwrap();
    Context::started(StackPointer(sp), ThreadLocals::new(stack))
}

#[test]
fn architectures_reserve_their_entry() {
    assert_eq!(Arch::X86_64.reserve_words(), 2);
    assert_eq!(Arch::X86 { trampoline: 0 }.reserve_words(), 9);
    assert_eq!(Arch::X86_64.init_offset_words(), 2);
    assert_eq!(Arch::X86 { trampoline: 0 }.init_offset_words(), 4);
}

#[test]
fn stack_holds_fewer_words_than_its_size() {
    let w = word();
    let stack = Stack::new(0x2000 - 9 * w, 0x2000).unwrap();
    assert!(stack.holds(0));
    assert!(stack.holds(8));
    assert!(!stack.holds(9));
    assert!(!stack.holds(10));
    assert!(!stack.holds(usize::MAX));
    assert!(!stack.holds(usize::MAX / w));
    assert!(!stack.holds(usize::MAX / w + 1));
    let stack = Stack::new(0x2000 - 9 * w - 1, 0x2000).unwrap();
    assert!(stack.holds(9));
    assert!(!stack.holds(10));
}

#[test]
fn exited_argument_packs_without_a_member() {
    let raw: ArgsRaw<C1<Stack, u8>> = Either::Left(ExitedArgs(3, PhantomData));
    let (next, arg) = pack_args::<C1<Stack, u8>>(raw);
    assert!(next.is_none());
    assert_eq!(arg, 3);
}

#[test]
fn yielded_argument_packs_with_its_member() {
    let raw: ArgsRaw<C1<Stack, u8>> = Either::Right(YieldedArgs(C1(suspended(0x1f00)), 4));
    let (next, arg) = pack_args::<C1<Stack, u8>>(raw);
    assert_eq!(next.unwrap().0.stack_pointer, StackPointer(0x1f00));
    assert_eq!(arg, 4);
}

#[test]
fn yielded_argument_is_rebuilt_around_the_context() {
    let YieldedArgs(member, arg) =
        <YieldedArgs<C1<Stack, u8>, &'static str> as Rebuild>::rebuild(suspended(0x1e00), "x");
    assert_eq!(member.unpack().stack_pointer, StackPointer(0x1e00));
    assert_eq!(arg, "x");
}

#[test]
fn exited_argument_is_rebuilt_without_the_context() {
    let dead = Context::from_parts(StackPointer(0x1e00), None);
    let ExitedArgs(arg, _) = <ExitedArgs<C1<Stack, u8>, &'static str> as Rebuild>::rebuild(dead, "y");
    assert_eq!(arg, "y");
}

#[test]
fn either_is_rebuilt_by_its_side() {
    let stack = Stack::new(0x1000, 0x2000).unwrap();
    let left = Either::Left(Envelope { thread_locals: Some(ThreadLocals::new(stack)), arg: 1u8 });
    match ArgsRaw::<C2<Stack, u8, u16>>::rebuild_raw(StackPointer(0x1d00), left) {
        Either::Left(ExitedArgs(arg, _)) => assert_eq!(arg, 1),
        Either::Right(_) => panic!("what is sent as the first kind is rebuilt as the first"),
    }
    let right = Either::Right(Envelope { thread_locals: None, arg: 2u8 });
    match ArgsRaw::<C2<Stack, u8, u16>>::rebuild_raw(StackPointer(0x1d00), right) {
        Either::Right(YieldedArgs(member, arg)) => {
            assert_eq!(arg, 2);
            let ctx = member.unpack();
            assert_eq!(ctx.stack_pointer, StackPointer(0x1d00));
            assert!(ctx.thread_locals.is_none());
        }
        Either::Left(_) => panic!("what is sent as the second kind is rebuilt as the second"),
    }
}

#[test]
fn switches_send_to_the_side_they_name() {
    let d = suspended(0x1c00).switch_left::<u8, u16>(None, 9);
    assert_eq!(d.new_sp, StackPointer(0x1c00));
    assert!(d.thread_locals.is_some());
    assert!(matches!(d.payload, Either::Left(Envelope { thread_locals: None, arg: 9 })));
    let d = suspended(0x1c00).switch_right::<u8, u16>(None, 10);
    assert!(matches!(d.payload, Either::Right(Envelope { thread_locals: None, arg: 10 })));
}

#[test]
fn pack_and_unpack_are_inverse() {
    let member = C2::<Stack, u8, u16>::pack(suspended(0x1b00));
    let ctx = member.unpack();
    assert_eq!(ctx.stack_pointer, StackPointer(0x1b00));
    assert_eq!(ctx.thread_locals.unwrap().into_stack().base(), 0x2000);
}
