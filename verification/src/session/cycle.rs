//! Cyclic protocols.
//!
//! A cycle is a finite list of types that the switches between two threads
//! carry in turn, for as long as both live: each switch either yields, and
//! names what the next one carries, or ends the thread that makes it.
use vstd::prelude::*;
use core::marker::PhantomData;
use void::Void;
use crate::arch::{Arch, Store, Transfer, word_size};
use crate::fat_args;
use crate::session::context::{Context, Departure, RebuildRaw, ThreadLocals};
use crate::session::safer_rebuild::{Either, Envelope, Rebuild, RebuildWithTl};
use crate::stack::Stack;
use crate::stack_pointer::{StackPointer, cfa_slot, initialised};

verus! {

/// The context that a member `C` of a cycle wraps: that of a thread which
/// expects the argument of `C`.
pub type Unpacked<C> = Context<<C as CycleAssocs>::Arg, <C as CycleAssocs>::Stack>;

/// What the thread behind a member `C` of a cycle receives, as it is rebuilt
/// on arrival: word that the thread which switched has exited, or the next
/// member of the cycle, which is that thread; either way with an argument.
pub type ArgsRaw<C> = Either<
    ExitedArgs<C, <C as CycleAssocs>::Arg>,
    YieldedArgs<<C as CycleAssocs>::Next, <C as CycleAssocs>::Arg>,
>;

/// What is sent to the thread behind a member `C` of a cycle.
pub type PayloadRaw<C> = Either<
    Envelope<<C as CycleAssocs>::Arg, <C as CycleAssocs>::Stack>,
    Envelope<<C as CycleAssocs>::Arg, <C as CycleAssocs>::Stack>,
>;

/// What the thread behind a member `C` of a cycle receives: the next member,
/// unless the thread that switched has exited, and an argument.
pub type Args<C> = (Option<<C as CycleAssocs>::Next>, <C as CycleAssocs>::Arg);

/// The types of a member of a cycle.
pub trait CycleAssocs {
    /// What the thread behind the member is sent.
    type Arg;

    /// The member that follows.
    type Next;

    /// The type of the stacks of the cycle's threads.
    type Stack;
}

/// A member of a cycle: a suspended thread that expects a certain argument,
/// and whose switch yields the member that follows.
pub trait Cycle: CycleAssocs + Sized {
    /// The member that wraps `other`.
    spec fn packed(other: Unpacked<Self>) -> Self;

    /// The context the member wraps.
    spec fn unpacked(self) -> Unpacked<Self>;

    /// Wraps a context.
    fn pack(other: Unpacked<Self>) -> (r: Self)
        ensures
            r == Self::packed(other),
            r.unpacked() == other,
    ;

    /// Unwraps the context.
    fn unpack(self) -> (r: Unpacked<Self>)
        ensures
            r == self.unpacked(),
    ;

    /// Plans a new thread on `stack`: see [`Context::new`].
    fn new(arch: Arch, stack: &Stack, wrapper: usize, closure: &[u8], addr: usize) -> (r: (
        Vec<Store>,
        Transfer,
    ))
        requires
            arch.reserve() * word_size() < stack.size(),
        ensures
            initialised(arch, stack, wrapper, r.1.new_sp, r.0@),
            r.1.cfa_slot == Some(cfa_slot(stack) as usize),
            seq![r.1.arg0, r.1.arg1] == fat_args::to_regs_spec(closure@, addr),
    {
        Unpacked::<Self>::new(arch, stack, wrapper, closure, addr)
    }

    /// The member behind which stands the thread that has just switched back
    /// for the first time, from under `sp`, with its locals.
    fn started(sp: StackPointer, thread_locals: ThreadLocals<Self::Stack>) -> (r: Self)
        ensures
            r == Self::packed(Context::of(sp, Some(thread_locals))),
    {
        Self::pack(Context::started(sp, thread_locals))
    }

    /// Plans the switch to the thread behind the member that yields to it:
    /// the thread receives `args` and the member that follows, behind which
    /// stands the thread that switches, whose locals are `maybe_stack`.
    fn swap(self, maybe_stack: Option<ThreadLocals<Self::Stack>>, args: Self::Arg) -> (d: Departure<
        PayloadRaw<Self>,
        Self::Stack,
    >)
        ensures
            d.new_sp == self.unpacked().stack_pointer,
            d.payload == yielding::<Self>(maybe_stack, args),
            d.thread_locals == self.unpacked().thread_locals,
    {
        self.unpack().switch_right(maybe_stack, args)
    }

    /// Plans the switch to the thread behind the member that ends the thread
    /// which switches: the thread resumed receives `args` and no member, and
    /// drops the locals `maybe_stack` of the thread that has ended. Nothing
    /// switches back.
    fn kontinue(self, maybe_stack: Option<ThreadLocals<Self::Stack>>, args: Self::Arg) -> (d:
        Departure<PayloadRaw<Self>, Self::Stack>)
        ensures
            d.new_sp == self.unpacked().stack_pointer,
            d.payload == exiting::<Self>(maybe_stack, args),
            d.thread_locals == self.unpacked().thread_locals,
    {
        self.unpack().switch_left(maybe_stack, args)
    }
}

/// What a thread sends when it yields.
pub open spec fn yielding<C: CycleAssocs>(
    maybe_stack: Option<ThreadLocals<C::Stack>>,
    args: C::Arg,
) -> PayloadRaw<C> {
    Either::Right(Envelope { thread_locals: maybe_stack, arg: args })
}

/// What a thread sends when it exits.
pub open spec fn exiting<C: CycleAssocs>(
    maybe_stack: Option<ThreadLocals<C::Stack>>,
    args: C::Arg,
) -> PayloadRaw<C> {
    Either::Left(Envelope { thread_locals: maybe_stack, arg: args })
}

/// The argument of a thread that is resumed by one that has exited.
pub struct ExitedArgs<C, T>(pub T, pub PhantomData<C>);

/// The argument of a thread that is resumed by one that has yielded, and the
/// member of the cycle behind which that one stands.
pub struct YieldedArgs<C, T>(pub C, pub T);

impl<C: CycleAssocs, T> RebuildWithTl for ExitedArgs<C, T> {
    type Payload = T;

    type OldStack = C::Stack;
}

impl<C: CycleAssocs, T> Rebuild for ExitedArgs<C, T> {
    type OldArgs = Void;

    open spec fn rebuilt(ctx: Context<Void, C::Stack>, arg: T) -> Self {
        ExitedArgs(arg, PhantomData)
    }

    /// Drops the context of the thread that has exited, and with it the
    /// thread's locals and stack.
    fn rebuild(ctx: Context<Void, C::Stack>, arg: T) -> (r: Self) {
        let _ = ctx.abandon();
        ExitedArgs(arg, PhantomData)
    }
}

impl<C: Cycle, T> RebuildWithTl for YieldedArgs<C, T> {
    type Payload = T;

    type OldStack = C::Stack;
}

impl<C: Cycle, T> Rebuild for YieldedArgs<C, T> {
    type OldArgs = C::Arg;

    open spec fn rebuilt(ctx: Unpacked<C>, arg: T) -> Self {
        YieldedArgs(C::packed(ctx), arg)
    }

    fn rebuild(ctx: Unpacked<C>, arg: T) -> (r: Self) {
        YieldedArgs(C::pack(ctx), arg)
    }
}

/// What `pack_args` makes.
pub open spec fn packed_args<C: CycleAssocs>(args_raw: ArgsRaw<C>) -> Args<C> {
    match args_raw {
        Either::Left(exited) => (None, exited.0),
        Either::Right(yielded) => (Some(yielded.0), yielded.1),
    }
}

/// Turns the argument as rebuilt into the argument as the thread takes it: no
/// member of the cycle if the thread that switched has exited, else the
/// member behind which it stands.
pub fn pack_args<C: CycleAssocs>(args_raw: ArgsRaw<C>) -> (r: Args<C>)
    ensures
        r == packed_args::<C>(args_raw),
{
    match args_raw {
        Either::Left(ExitedArgs(arg, _)) => (None, arg),
        Either::Right(YieldedArgs(ctx, arg)) => (Some(ctx), arg),
    }
}

/// What the thread behind a member `C` receives when a switch delivers it
/// `payload` from a thread now suspended under `sp`.
pub open spec fn received<C: CycleAssocs>(sp: StackPointer, payload: PayloadRaw<C>) -> Args<C> where
    C::Next: Cycle<Stack = C::Stack>,
 {
    packed_args::<C>(ArgsRaw::<C>::rebuilt_raw(sp, payload))
}

/// Takes what a switch delivered to the thread behind a member `C`: the
/// stack pointer `sp` of the thread now suspended, and what it sent.
pub fn arrive<C: CycleAssocs>(sp: StackPointer, payload: PayloadRaw<C>) -> (r: Args<C>) where
    C::Next: Cycle<Stack = C::Stack>,

    ensures
        r == received::<C>(sp, payload),
{
    pack_args::<C>(ArgsRaw::<C>::rebuild_raw(sp, payload))
}

/// What follows the switch that `kontinue` plans. No member of the cycle
/// stands for a thread that has exited, so nothing switches back to it: what
/// such a switch would deliver, from under `sp`, is of the type that has no
/// value.
#[allow(unreachable_code)]
pub fn kontinued<T>(sp: StackPointer, delivered: Void) -> T {
    crate::session::context::unreachable(<Void as RebuildRaw>::rebuild_raw(sp, delivered))
}

/// After a thread has exited, the thread it resumed holds no member of the
/// cycle to switch to: what `kontinue` sends is received as `None`, with the
/// argument as it was sent.
pub proof fn lemma_exit_is_received_as_none<C: CycleAssocs>(
    sp: StackPointer,
    maybe_stack: Option<ThreadLocals<C::Stack>>,
    args: C::Arg,
) where C::Next: Cycle<Stack = C::Stack>
    ensures
        received::<C>(sp, exiting::<C>(maybe_stack, args)) == (None::<C::Next>, args),
{
}

/// What `swap` sends is received as the member that follows, behind which
/// stands the thread that switched, suspended under the stack pointer the
/// switch delivered and with the locals it sent; the argument is as it was
/// sent.
pub proof fn lemma_yield_is_received_as_some<C: CycleAssocs>(
    sp: StackPointer,
    maybe_stack: Option<ThreadLocals<C::Stack>>,
    args: C::Arg,
) where C::Next: Cycle<Stack = C::Stack>
    ensures
        received::<C>(sp, yielding::<C>(maybe_stack, args)) == (
            Some(<C::Next as Cycle>::packed(Context::of(sp, maybe_stack))),
            args,
        ),
{
}

/// A cycle of period one: every switch carries the same type.
pub struct C1<S, A>(pub Context<A, S>);

impl<S, A> CycleAssocs for C1<S, A> {
    type Arg = A;

    type Next = Self;

    type Stack = S;
}

impl<S, A> Cycle for C1<S, A> {
    open spec fn packed(other: Unpacked<Self>) -> Self {
        C1(other)
    }

    open spec fn unpacked(self) -> Unpacked<Self> {
        self.0
    }

    fn pack(other: Unpacked<Self>) -> (r: Self) {
        let r = C1(other);
        assert(r.0 == other);
        assert(r.unpacked() == r.0);
        r
    }

    fn unpack(self) -> (r: Unpacked<Self>) {
        self.0
    }
}

} // verus!
