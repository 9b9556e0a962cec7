//! The mathematical model of the machine.
//!
//! A tape is modelled as a `Seq<usize>` of materialized cells together with a
//! generator model `g: spec_fn(usize) -> usize` that gives the logical value
//! of every cell that was never written. Reading, writing (with growth) and
//! the single-step transition are defined here as pure spec functions; the
//! executable machine's contracts are stated, and its laws proved, against
//! these definitions.
//!
//! Address arithmetic wraps around: adding the step size to the program
//! counter, or 1 to an operand address, is taken modulo `usize::MAX + 1`.
//! This makes every operation total, as the machine's design demands.

use vstd::prelude::*;

verus! {

/// Addition on `usize` that wraps around on overflow.
pub open spec fn wrap_add(a: usize, b: usize) -> usize {
    if a + b > usize::MAX {
        (a + b - usize::MAX - 1) as usize
    } else {
        (a + b) as usize
    }
}

/// The value a read at `index` returns: the materialized cell when one
/// exists, and the generator's value for `index` otherwise.
pub open spec fn read_at(cells: Seq<usize>, g: spec_fn(usize) -> usize, index: usize) -> usize {
    if (index as int) < cells.len() {
        cells[index as int]
    } else {
        g(index)
    }
}

/// The tape after a write of `value` at `index`. A write inside the tape
/// replaces one cell; a write past the end grows the tape to length
/// `index + 1`, fills every newly created cell `p` strictly before `index`
/// with the generator's value for `p`, and puts `value` at `index` itself.
pub open spec fn written(
    cells: Seq<usize>,
    g: spec_fn(usize) -> usize,
    index: usize,
    value: usize,
) -> Seq<usize> {
    if (index as int) < cells.len() {
        cells.update(index as int, value)
    } else {
        Seq::new(
            index as nat + 1,
            |p: int|
                if p < cells.len() {
                    cells[p]
                } else if p < index as int {
                    g(p as usize)
                } else {
                    value
                },
        )
    }
}

/// The two operand cells read in one step: the cells at `index` and at
/// `index + 1`. The second address wraps around at the end of the address
/// space; a wrapped second operand is always answered by the generator,
/// since its cell cannot lie inside any tape that fits in memory.
pub open spec fn read_pair_at(
    cells: Seq<usize>,
    g: spec_fn(usize) -> usize,
    index: usize,
) -> (usize, usize) {
    (
        read_at(cells, g, index),
        if index == usize::MAX {
            g(0)
        } else {
            read_at(cells, g, (index + 1) as usize)
        },
    )
}

/// The operand addresses of one step from `cells`: the pair read at the
/// pre-update program counter, on the tape as it stands after the program
/// counter was advanced. The first is the source address, the second the
/// destination address.
pub open spec fn step_operands(
    cells: Seq<usize>,
    g: spec_fn(usize) -> usize,
    step: usize,
) -> (usize, usize) {
    let old_pc = read_at(cells, g, 0);
    read_pair_at(written(cells, g, 0, wrap_add(old_pc, step)), g, old_pc)
}

/// The tape after one step: the program counter (cell 0) is advanced by
/// `step`, the two operand addresses are read at the old program counter,
/// and the value at the source address is copied to the destination
/// address. Both the operand reads and the source read see the tape with
/// the program counter already advanced.
pub open spec fn step_result(
    cells: Seq<usize>,
    g: spec_fn(usize) -> usize,
    step: usize,
) -> Seq<usize> {
    let old_pc = read_at(cells, g, 0);
    let mid = written(cells, g, 0, wrap_add(old_pc, step));
    let operands = read_pair_at(mid, g, old_pc);
    written(mid, g, operands.1, read_at(mid, g, operands.0))
}

/// A write of `value` at `index` is read back as `value` at `index` and
/// changes the read at no other address: cells it grows into hold exactly
/// what the generator already answered for them.
pub proof fn lemma_write_read(
    cells: Seq<usize>,
    g: spec_fn(usize) -> usize,
    index: usize,
    value: usize,
)
    ensures
        read_at(written(cells, g, index, value), g, index) == value,
        forall|q: usize|
            q != index ==> read_at(written(cells, g, index, value), g, q) == read_at(
                cells,
                g,
                q,
            ),
{
}

/// Growth never clobbers: a write at `index` never changes any materialized
/// cell at a position below both the prior length and `index`.
pub proof fn lemma_write_preserves_prefix(
    cells: Seq<usize>,
    g: spec_fn(usize) -> usize,
    index: usize,
    value: usize,
)
    ensures
        forall|p: int|
            0 <= p < cells.len() && p < index as int ==> written(cells, g, index, value)[p]
                == cells[p],
{
}

/// Default-fill correctness: after any growth, every newly created cell at a
/// position `p` other than the one explicitly targeted holds the generator's
/// value for `p`.
pub proof fn lemma_growth_fills_default(
    cells: Seq<usize>,
    g: spec_fn(usize) -> usize,
    index: usize,
    value: usize,
)
    ensures
        forall|p: int|
            cells.len() <= p < index as int ==> written(cells, g, index, value)[p] == g(
                p as usize,
            ),
{
}

/// Writing back what a read returned is a no-op: after a write of
/// `read_at(cells, g, index)` at `index`, a read at every address answers
/// exactly what it answered before.
pub proof fn lemma_overwrite_with_read_is_noop(
    cells: Seq<usize>,
    g: spec_fn(usize) -> usize,
    index: usize,
)
    ensures
        forall|q: usize|
            read_at(written(cells, g, index, read_at(cells, g, index)), g, q) == read_at(
                cells,
                g,
                q,
            ),
{
}

/// Copy semantics of one step. With `(src, dst)` the operand addresses of
/// the step, after the step:
/// - the read at `dst` answers the value that the source read produced on
///   the tape with the program counter already advanced — which is the
///   pre-step value at `src` whenever `src` is not cell 0 itself;
/// - whenever `dst` is not cell 0 itself, the read at cell 0 answers the old
///   program counter advanced by `step`;
/// - the read at every address other than 0 and `dst` answers exactly what
///   it answered before the step.
pub proof fn lemma_step_copy_semantics(
    cells: Seq<usize>,
    g: spec_fn(usize) -> usize,
    step: usize,
)
    ensures
        read_at(step_result(cells, g, step), g, step_operands(cells, g, step).1) == read_at(
            written(cells, g, 0, wrap_add(read_at(cells, g, 0), step)),
            g,
            step_operands(cells, g, step).0,
        ),
        step_operands(cells, g, step).0 != 0 ==> read_at(
            step_result(cells, g, step),
            g,
            step_operands(cells, g, step).1,
        ) == read_at(cells, g, step_operands(cells, g, step).0),
        step_operands(cells, g, step).1 != 0 ==> read_at(step_result(cells, g, step), g, 0)
            == wrap_add(read_at(cells, g, 0), step),
        forall|q: usize|
            q != 0 && q != step_operands(cells, g, step).1 ==> read_at(
                step_result(cells, g, step),
                g,
                q,
            ) == read_at(cells, g, q),
{
    let old_pc = read_at(cells, g, 0);
    let new_pc = wrap_add(old_pc, step);
    let mid = written(cells, g, 0, new_pc);
    let operands = read_pair_at(mid, g, old_pc);
    let src = operands.0;
    let dst = operands.1;
    let value = read_at(mid, g, src);
    lemma_write_read(cells, g, 0, new_pc);
    lemma_write_read(mid, g, dst, value);
    assert(step_result(cells, g, step) == written(mid, g, dst, value));
}

} // verus!
