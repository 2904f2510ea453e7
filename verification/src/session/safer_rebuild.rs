//! Rebuilding arguments from the context of the thread that sent them.
use vstd::prelude::*;
use crate::session::context::{Context, Departure, RebuildRaw, ThreadLocals};
use crate::stack_pointer::StackPointer;

verus! {

/// One of two.
pub enum Either<L, R> {
    /// The first.
    Left(L),
    /// The second.
    Right(R),
}

/// What a thread sends along when it switches: its own locals, which the
/// thread it resumes holds for it, and the argument.
pub struct Envelope<T, S> {
    /// The locals of the sender; `None` if it is the native thread.
    pub thread_locals: Option<ThreadLocals<S>>,
    /// The argument.
    pub arg: T,
}

/// The types that go into rebuilding an argument.
pub trait RebuildWithTl {
    /// What is sent.
    type Payload;

    /// The type of the stack of the thread that sends.
    type OldStack;
}

/// An argument that is rebuilt from the context of the thread that sent it
/// and from what it sent.
pub trait Rebuild: RebuildWithTl + Sized {
    /// What the thread that sent expects in turn.
    type OldArgs;

    /// What `rebuild` makes.
    spec fn rebuilt(ctx: Context<Self::OldArgs, Self::OldStack>, arg: Self::Payload) -> Self;

    /// Makes the argument.
    fn rebuild(ctx: Context<Self::OldArgs, Self::OldStack>, arg: Self::Payload) -> (r: Self)
        ensures
            r == Self::rebuilt(ctx, arg),
    ;
}

impl<L: Rebuild, R: Rebuild> RebuildRaw for Either<L, R> {
    type PayloadRaw = Either<Envelope<L::Payload, L::OldStack>, Envelope<R::Payload, R::OldStack>>;

    open spec fn rebuilt_raw(sp: StackPointer, payload: Self::PayloadRaw) -> Self {
        match payload {
            Either::Left(envelope) => Either::Left(
                L::rebuilt(Context::of(sp, envelope.thread_locals), envelope.arg),
            ),
            Either::Right(envelope) => Either::Right(
                R::rebuilt(Context::of(sp, envelope.thread_locals), envelope.arg),
            ),
        }
    }

    fn rebuild_raw(sp: StackPointer, payload: Self::PayloadRaw) -> (r: Self) {
        match payload {
            Either::Left(envelope) => Either::Left(
                L::rebuild(Context::from_parts(sp, envelope.thread_locals), envelope.arg),
            ),
            Either::Right(envelope) => Either::Right(
                R::rebuild(Context::from_parts(sp, envelope.thread_locals), envelope.arg),
            ),
        }
    }
}

impl<Args, S> Context<Args, S> {
    /// Plans the switch into the context that sends the first kind of
    /// argument, with the locals `maybe_tl` of the thread that switches.
    pub fn switch_left<L, R>(self, maybe_tl: Option<ThreadLocals<S>>, arg: L) -> (d: Departure<
        Either<Envelope<L, S>, Envelope<R, S>>,
        S,
    >)
        ensures
            d.new_sp == self.stack_pointer,
            d.payload == Either::<Envelope<L, S>, Envelope<R, S>>::Left(
                (Envelope { thread_locals: maybe_tl, arg }),
            ),
            d.thread_locals == self.thread_locals,
    {
        self.raw_switch(Either::Left(Envelope { thread_locals: maybe_tl, arg }))
    }

    /// Plans the switch into the context that sends the second kind of
    /// argument, with the locals `maybe_tl` of the thread that switches.
    pub fn switch_right<L, R>(self, maybe_tl: Option<ThreadLocals<S>>, arg: R) -> (d: Departure<
        Either<Envelope<L, S>, Envelope<R, S>>,
        S,
    >)
        ensures
            d.new_sp == self.stack_pointer,
            d.payload == Either::<Envelope<L, S>, Envelope<R, S>>::Right(
                (Envelope { thread_locals: maybe_tl, arg }),
            ),
            d.thread_locals == self.thread_locals,
    {
        self.raw_switch(Either::Right(Envelope { thread_locals: maybe_tl, arg }))
    }
}

} // verus!
