//! The Cythan machine: a growable tape of `usize` cells, a default-value
//! generator, and a step size.
//!
//! Cell 0 is both data and the program counter: every step reads it, advances
//! it by the step size, and then performs one memory copy whose source and
//! destination addresses are read from the tape at the old program counter.
//! A write to cell 0 between steps is therefore visible to the next step's
//! program-counter read.
//!
//! Every operation is total. Reads past the end of the tape are answered by
//! the generator without mutation; writes past the end grow the tape, filling
//! the newly created cells from the generator. Program-counter and address
//! arithmetic wraps around on overflow.

use vstd::prelude::*;

use crate::generator::DefaultGenerator;
use crate::semantics;

verus! {

/// The Cythan machine.
pub struct Cythan<F: Fn(usize) -> usize> {
    cases: Vec<usize>,
    step: usize,
    generator: DefaultGenerator<F>,
}

impl<F: Fn(usize) -> usize> Cythan<F> {
    /// The materialized cells of the tape.
    pub closed spec fn tape(self) -> Seq<usize> {
        self.cases@
    }

    /// The step size: what the program counter is advanced by on each step.
    pub closed spec fn step_size(self) -> usize {
        self.step
    }

    /// The generator as a mathematical function of the index.
    pub closed spec fn gen_model(self) -> spec_fn(usize) -> usize {
        self.generator.model()
    }

    /// A well-formed machine: its generator is total and deterministic, as
    /// the generator's contract demands of every implementation.
    pub closed spec fn wf(self) -> bool {
        self.generator.wf()
    }

    /// Build a machine over `cases` with step size 2 and the fixed value 0
    /// for every cell never written.
    pub fn new(cases: Vec<usize>) -> (r: Cythan<F>)
        ensures
            r.wf(),
            r.tape() == cases@,
            r.step_size() == 2,
            forall|i: usize| #[trigger] r.gen_model()(i) == 0,
    {
        Cythan { cases, step: 2, generator: DefaultGenerator::FixedValue(0) }
    }

    /// Build a machine over `cases` with the given step size and the fixed
    /// value `generator` for every cell never written.
    pub fn new_static_value(cases: Vec<usize>, step: usize, generator: usize) -> (r: Cythan<F>)
        ensures
            r.wf(),
            r.tape() == cases@,
            r.step_size() == step,
            forall|i: usize| #[trigger] r.gen_model()(i) == generator,
    {
        Cythan { cases, step, generator: DefaultGenerator::FixedValue(generator) }
    }

    /// Build a machine over `cases` with the given step size, taking the
    /// value of every cell never written from `generator`. The generator
    /// must be a pure function of the index: callable on every index, with
    /// one value per index.
    pub fn new_config(cases: Vec<usize>, step: usize, generator: F) -> (r: Cythan<F>)
        requires
            forall|i: usize| #[trigger] call_requires(generator, (i,)),
            forall|i: usize, v1: usize, v2: usize|
                call_ensures(generator, (i,), v1) && call_ensures(generator, (i,), v2)
                    ==> v1 == v2,
        ensures
            r.wf(),
            r.tape() == cases@,
            r.step_size() == step,
            forall|i: usize, v: usize| #[trigger]
                call_ensures(generator, (i,), v) ==> r.gen_model()(i) == v,
    {
        let r = Cythan { cases, step, generator: DefaultGenerator::Function(generator) };
        proof {
            assert forall|i: usize, v: usize| #[trigger]
                call_ensures(generator, (i,), v) implies r.gen_model()(i) == v by {
                let picked = choose|u: usize| call_ensures(generator, (i,), u);
                assert(call_ensures(generator, (i,), picked));
            }
        }
        r
    }

    /// The value at `index`: the cell when the index is inside the tape, and
    /// the generator's value for `index` otherwise. Never mutates.
    pub fn get_value(&self, index: usize) -> (r: usize)
        requires
            self.wf(),
        ensures
            r == semantics::read_at(self.tape(), self.gen_model(), index),
    {
        if index < self.cases.len() {
            self.cases[index]
        } else {
            self.generator.generate(index)
        }
    }

    /// The two operand cells at `index` and `index + 1`, exactly as two
    /// independent reads would answer them; the second address wraps around
    /// at the end of the address space. Never mutates.
    fn get_both_values(&self, index: usize) -> (r: (usize, usize))
        requires
            self.wf(),
        ensures
            r == semantics::read_pair_at(self.tape(), self.gen_model(), index),
    {
        let first = self.get_value(index);
        let second = if index == usize::MAX {
            self.generator.generate(0)
        } else {
            self.get_value(index + 1)
        };
        (first, second)
    }

    /// Set the cell at `index` to `value`. When `index` lies past the end of
    /// the tape, the tape first grows to length `index + 1` and every newly
    /// created cell strictly before `index` is filled with the generator's
    /// value for its own position; cells at or below the prior length are
    /// never touched.
    pub fn set_value(&mut self, index: usize, value: usize)
        requires
            old(self).wf(),
        ensures
            final(self).wf(),
            final(self).step_size() == old(self).step_size(),
            final(self).gen_model() == old(self).gen_model(),
            final(self).tape() == semantics::written(
                old(self).tape(),
                old(self).gen_model(),
                index,
                value,
            ),
    {
        if index < self.cases.len() {
            self.cases[index] = value;
        } else {
            let ghost orig = *self;
            while self.cases.len() < index
                invariant
                    orig.wf(),
                    index >= orig.cases@.len(),
                    self.generator == orig.generator,
                    self.step == orig.step,
                    orig.cases@.len() <= self.cases@.len() <= index,
                    forall|p: int|
                        0 <= p < orig.cases@.len() ==> self.cases@[p] == orig.cases@[p],
                    forall|p: int|
                        orig.cases@.len() <= p < self.cases@.len()
                            ==> self.cases@[p] == orig.gen_model()(p as usize),
                decreases index - self.cases@.len(),
            {
                let position = self.cases.len();
                let fill = self.generator.generate(position);
                self.cases.push(fill);
            }
            self.cases.push(value);
            proof {
                assert(self.cases@ =~= semantics::written(
                    orig.cases@,
                    orig.gen_model(),
                    index,
                    value,
                ));
            }
        }
    }

    /// Execute one iteration of the machine: read the program counter
    /// (cell 0), advance it by the step size (wrapping on overflow), read the
    /// source and destination addresses at the old program counter, and copy
    /// the value at the source address to the destination address. The
    /// operand and source reads see the tape with the program counter already
    /// advanced.
    pub fn next(&mut self)
        requires
            old(self).wf(),
        ensures
            final(self).wf(),
            final(self).step_size() == old(self).step_size(),
            final(self).gen_model() == old(self).gen_model(),
            final(self).tape() == semantics::step_result(
                old(self).tape(),
                old(self).gen_model(),
                old(self).step_size(),
            ),
    {
        let old_pc = self.get_value(0);
        let new_pc = old_pc.wrapping_add(self.step);
        proof {
            assert(new_pc == semantics::wrap_add(old_pc, self.step));
        }
        self.set_value(0, new_pc);
        let (src_addr, dst_addr) = self.get_both_values(old_pc);
        let value = self.get_value(src_addr);
        self.set_value(dst_addr, value);
    }

    /// The materialized cells of the tape, in order, as a fresh vector.
    pub fn cells(&self) -> (r: Vec<usize>)
        ensures
            r@ == self.tape(),
    {
        let mut r: Vec<usize> = Vec::new();
        let mut i: usize = 0;
        while i < self.cases.len()
            invariant
                i <= self.cases@.len(),
                r@ == self.cases@.take(i as int),
            decreases self.cases@.len() - i,
        {
            r.push(self.cases[i]);
            i += 1;
        }
        proof {
            assert(r@ =~= self.cases@);
        }
        r
    }

    /// The step size the machine was built with.
    pub fn get_step(&self) -> (r: usize)
        ensures
            r == self.step_size(),
    {
        self.step
    }
}

} // verus!
