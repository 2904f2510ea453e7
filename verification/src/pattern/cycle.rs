//! The cycles of up to four types.
//!
//! Longer ones are made in the same way, by implementing the trait. Each type names the
//! type of the stacks, then what the thread behind it is sent, and then what
//! the threads after it in the cycle are sent, in turn; the member that
//! follows names the same types rotated by one.
use vstd::prelude::*;
use core::marker::PhantomData;
use crate::session::context::Context;
use crate::session::cycle::Unpacked;

pub use crate::session::cycle::{Args, Cycle, CycleAssocs, C1};

verus! {

/// A cycle of period two.
pub struct C2<S, A, B>(pub Context<A, S>, pub PhantomData<B>);

impl<S, A, B> CycleAssocs for C2<S, A, B> {
    type Arg = A;

    type Next = C2<S, B, A>;

    type Stack = S;
}

impl<S, A, B> Cycle for C2<S, A, B> {
    open spec fn packed(other: Unpacked<Self>) -> Self {
        C2(other, PhantomData)
    }

    open spec fn unpacked(self) -> Unpacked<Self> {
        self.0
    }

    fn pack(other: Unpacked<Self>) -> (r: Self) {
        let r = C2(other, PhantomData);
        assert(r.unpacked() == r.0);
        r
    }

    fn unpack(self) -> (r: Unpacked<Self>) {
        self.0
    }
}

/// A cycle of period three.
pub struct C3<S, A, B, C>(pub Context<A, S>, pub PhantomData<(B, C)>);

impl<S, A, B, C> CycleAssocs for C3<S, A, B, C> {
    type Arg = A;

    type Next = C3<S, B, C, A>;

    type Stack = S;
}

impl<S, A, B, C> Cycle for C3<S, A, B, C> {
    open spec fn packed(other: Unpacked<Self>) -> Self {
        C3(other, PhantomData)
    }

    open spec fn unpacked(self) -> Unpacked<Self> {
        self.0
    }

    fn pack(other: Unpacked<Self>) -> (r: Self) {
        let r = C3(other, PhantomData);
        assert(r.unpacked() == r.0);
        r
    }

    fn unpack(self) -> (r: Unpacked<Self>) {
        self.0
    }
}

/// A cycle of period four.
pub struct C4<S, A, B, C, D>(pub Context<A, S>, pub PhantomData<(B, C, D)>);

impl<S, A, B, C, D> CycleAssocs for C4<S, A, B, C, D> {
    type Arg = A;

    type Next = C4<S, B, C, D, A>;

    type Stack = S;
}

impl<S, A, B, C, D> Cycle for C4<S, A, B, C, D> {
    open spec fn packed(other: Unpacked<Self>) -> Self {
        C4(other, PhantomData)
    }

    open spec fn unpacked(self) -> Unpacked<Self> {
        self.0
    }

    fn pack(other: Unpacked<Self>) -> (r: Self) {
        let r = C4(other, PhantomData);
        assert(r.unpacked() == r.0);
        r
    }

    fn unpack(self) -> (r: Unpacked<Self>) {
        self.0
    }
}

} // verus!
