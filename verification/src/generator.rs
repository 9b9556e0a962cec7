//! The default-value generator.
//!
//! The generator is the policy that produces the logical value of a tape cell
//! that has never been written: it answers every read past the tape's current
//! length and fills every cell created by growth. It is fixed when the
//! machine is built and never changes afterwards.
//!
//! Two variants exist: a fixed constant, and an arbitrary pure function of
//! the index. A function generator must be total (callable on every index)
//! and deterministic (one value per index); under those two conditions the
//! generator as a whole is a mathematical function of the index, its
//! [`model`](DefaultGenerator::model), and everything the machine does is
//! stated over that model.

use vstd::prelude::*;

verus! {

/// The policy for the value of a cell that has never been written.
pub(crate) enum DefaultGenerator<F: Fn(usize) -> usize> {
    /// An arbitrary pure function of the index.
    Function(F),
    /// The same fixed value for every index.
    FixedValue(usize),
}

impl<F: Fn(usize) -> usize> DefaultGenerator<F> {
    /// The generator can be asked for every index.
    pub(crate) open spec fn is_total(self) -> bool {
        match self {
            DefaultGenerator::Function(f) => forall|i: usize| #[trigger] call_requires(f, (i,)),
            DefaultGenerator::FixedValue(_) => true,
        }
    }

    /// The generator allows at most one value per index.
    pub(crate) open spec fn is_deterministic(self) -> bool {
        match self {
            DefaultGenerator::Function(f) => forall|i: usize, v1: usize, v2: usize|
                call_ensures(f, (i,), v1) && call_ensures(f, (i,), v2) ==> v1 == v2,
            DefaultGenerator::FixedValue(_) => true,
        }
    }

    /// A total, deterministic generator.
    pub(crate) open spec fn wf(self) -> bool {
        self.is_total() && self.is_deterministic()
    }

    /// The generator as a mathematical function of the index. For a fixed
    /// value this is the constant function; for a function generator it is
    /// the one value the function can return at each index.
    pub(crate) open spec fn model(self) -> spec_fn(usize) -> usize {
        match self {
            DefaultGenerator::Function(f) => (|i: usize|
                choose|v: usize| call_ensures(f, (i,), v)),
            DefaultGenerator::FixedValue(value) => (|i: usize| value),
        }
    }

    /// Produce the value for `index`.
    pub(crate) fn generate(&self, index: usize) -> (r: usize)
        requires
            self.wf(),
        ensures
            r == self.model()(index),
    {
        match self {
            DefaultGenerator::Function(f) => {
                let r = f(index);
                proof {
                    assert(call_ensures(*f, (index,), r));
                    let picked = choose|v: usize| call_ensures(*f, (index,), v);
                    assert(call_ensures(*f, (index,), picked));
                }
                r
            },
            DefaultGenerator::FixedValue(value) => *value,
        }
    }
}

} // verus!
