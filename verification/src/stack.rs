//! The memory region a thread of execution runs on.
use vstd::prelude::*;
use crate::arch::{align_down_mut, is_aligned, round_down, word, word_size};
use crate::arch::x86_common::{STACK_ALIGN, lemma_stack_align_is_pow2};

verus! {

/// A contiguous region of memory usable as a call stack, described by its
/// bounds. Stacks grow downwards, from `base` towards `limit`.
///
/// Every value of this type has `limit < top <= base`, and a `base` that is a
/// multiple of [`STACK_ALIGN`].
#[derive(Debug)]
pub struct Stack {
    limit: usize,
    base: usize,
}

impl Stack {
    #[verifier::type_invariant]
    spec fn inv(self) -> bool {
        self.wf()
    }

    /// The lowest usable address.
    pub closed spec fn spec_limit(&self) -> usize {
        self.limit
    }

    /// One past the highest usable address.
    pub closed spec fn spec_base(&self) -> usize {
        self.base
    }

    /// The initial value of the stack pointer.
    pub open spec fn spec_top(&self) -> usize {
        self.spec_base()
    }

    /// The number of usable bytes.
    pub open spec fn size(&self) -> int {
        self.spec_base() - self.spec_limit()
    }

    /// What holds of every stack.
    pub open spec fn wf(&self) -> bool {
        &&& self.spec_limit() < self.spec_top()
        &&& self.spec_top() <= self.spec_base()
        &&& is_aligned(self.spec_base() as int, STACK_ALIGN as int)
    }

    /// Describes the stack that occupies the bytes from `start` up to, but not
    /// including, `end`. The base is `end` rounded down to [`STACK_ALIGN`], so
    /// that a region may begin and end at any byte. `None` if no byte is left
    /// below the base.
    pub fn new(start: usize, end: usize) -> (r: Option<Stack>)
        ensures
            r is Some <==> start < round_down(end as int, STACK_ALIGN as int),
            r matches Some(s) ==> s.wf() && s.spec_limit() == start && s.spec_base() == round_down(
                end as int,
                STACK_ALIGN as int,
            ),
    {
        proof {
            lemma_stack_align_is_pow2();
        }
        let base: usize = align_down_mut(end, STACK_ALIGN);
        if start < base {
            Some(Stack { limit: start, base })
        } else {
            None
        }
    }

    /// Whether the stack holds more than `words` machine words.
    pub fn holds(&self, words: usize) -> (r: bool)
        ensures
            r == (words * word_size() < self.size()),
            self.wf(),
    {
        proof {
            use_type_invariant(self);
        }
        let size: usize = self.base - self.limit;
        let w: usize = word();
        // No more words than this can lie in memory at all.
        let most: usize = usize::MAX / w;
        proof {
            assert(most * w <= usize::MAX) by (nonlinear_arith)
                requires
                    most == usize::MAX / w,
                    w > 0,
            ;
            if words > most {
                assert(words * w > usize::MAX) by (nonlinear_arith)
                    requires
                        words >= most + 1,
                        most == usize::MAX / w,
                        w > 0,
                ;
            } else {
                assert(words * w <= usize::MAX) by (nonlinear_arith)
                    requires
                        words <= most,
                        most * w <= usize::MAX,
                        w > 0,
                ;
            }
        }
        words <= most && words * w < size
    }

    /// One past the highest usable address.
    #[verifier::when_used_as_spec(spec_base)]
    pub fn base(&self) -> (r: usize)
        ensures
            r == self.spec_base(),
            self.wf(),
    {
        proof {
            use_type_invariant(self);
        }
        self.base
    }

    /// The initial value of the stack pointer: the base, which is already
    /// aligned as the architecture requires.
    #[verifier::when_used_as_spec(spec_top)]
    pub fn top(&self) -> (r: usize)
        ensures
            r == self.spec_top(),
            self.wf(),
    {
        proof {
            use_type_invariant(self);
        }
        self.base
    }

    /// The lowest usable address.
    #[verifier::when_used_as_spec(spec_limit)]
    pub fn limit(&self) -> (r: usize)
        ensures
            r == self.spec_limit(),
            self.wf(),
    {
        proof {
            use_type_invariant(self);
        }
        self.limit
    }
}

} // verus!
