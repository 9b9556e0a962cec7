use cythan::Cythan;

type FixedOnly = fn(usize) -> usize;

#[test]
fn test_if() {
    let mut cythan: Cythan<FixedOnly> = Cythan::new(vec![1, 9, 5, 10, 1, 0, 0, 11, 0, 1, 20, 21]);
    for _a in 0..10 {
        cythan.next();
    }
    assert_eq!(cythan.cells(), vec![34, 20, 5, 10, 1, 1, 0, 11, 0, 1, 20, 21]);
}

#[test]
fn test_simple() {
    let mut cythan: Cythan<FixedOnly> = Cythan::new(vec![1, 5, 3, 0, 0, 999]);
    cythan.next();
    assert_eq!(cythan.cells(), vec![3, 5, 3, 999, 0, 999]);
}

#[test]
fn test_junk() {
    let mut cythan: Cythan<FixedOnly> = Cythan::new_static_value(vec![1, 0, 10], 2, 3);
    cythan.next();
    assert_eq!(cythan.cells(), vec![3, 0, 10, 3, 3, 3, 3, 3, 3, 3, 3]);
}

#[test]
fn test_double() {
    let mut cythan = Cythan::new_config(vec![1], 2, |x| x * 2);
    for _a in 0..10 {
        cythan.next();
    }
    assert_eq!(
        cythan.cells(),
        vec![
            21, 2, 4, 6, 12, 10, 12, 14, 16, 18, 20, 22, 20, 26, 28, 30, 28, 34, 36, 38, 44, 42,
            44, 46, 48, 50, 52, 54, 60, 58, 60, 62, 64, 66, 68, 70, 68, 74, 76, 78, 80, 82, 84,
            86, 76
        ]
    );
}

// One step copies the pre-step value at the source address to the destination
// address, advances cell 0 by the step size, and changes nothing else.
#[test]
fn step_copies_and_advances_pc() {
    let mut cythan: Cythan<FixedOnly> = Cythan::new(vec![2, 7, 4, 1, 50, 60, 70, 80]);
    // old pc = 2, operands at cells 2 and 3: src = 4, dst = 1.
    cythan.next();
    assert_eq!(cythan.cells(), vec![4, 50, 4, 1, 50, 60, 70, 80]);
}

// A write to cell 0 between steps is the next step's program counter.
#[test]
fn poking_cell_zero_redirects_the_next_step() {
    let mut cythan: Cythan<FixedOnly> = Cythan::new(vec![0, 9, 9, 4, 1, 77]);
    cythan.set_value(0, 3);
    // old pc = 3, operands at cells 3 and 4: src = 4, dst = 1.
    cythan.next();
    assert_eq!(cythan.cells(), vec![5, 1, 9, 4, 1, 77]);
}

// Reads past the end of the tape are answered by the generator and do not
// materialize anything.
#[test]
fn out_of_range_read_uses_generator_without_growth() {
    let fixed: Cythan<FixedOnly> = Cythan::new_static_value(vec![8], 2, 5);
    assert_eq!(fixed.get_value(0), 8);
    assert_eq!(fixed.get_value(1), 5);
    assert_eq!(fixed.get_value(1000), 5);
    assert_eq!(fixed.cells(), vec![8]);

    let function = Cythan::new_config(vec![8], 2, |i| i + 100);
    assert_eq!(function.get_value(0), 8);
    assert_eq!(function.get_value(3), 103);
    assert_eq!(function.cells(), vec![8]);
}

// Growth never clobbers: a write past the end leaves every prior cell as it
// was.
#[test]
fn growth_never_clobbers_prefix() {
    let mut cythan: Cythan<FixedOnly> = Cythan::new_static_value(vec![4, 5, 6], 2, 9);
    cythan.set_value(6, 1);
    assert_eq!(cythan.cells(), vec![4, 5, 6, 9, 9, 9, 1]);
}

// Default-fill correctness: every cell created by growth, other than the
// targeted one, holds the generator's value for its own position.
#[test]
fn growth_fills_from_function_generator() {
    let mut cythan = Cythan::new_config(vec![7], 2, |i| i * 10);
    cythan.set_value(4, 1);
    assert_eq!(cythan.cells(), vec![7, 10, 20, 30, 1]);
}

// Writing back what a read returned leaves the observable contents unchanged,
// both inside the tape and past its end.
#[test]
fn write_of_read_is_observably_a_noop() {
    let mut inside: Cythan<FixedOnly> = Cythan::new_static_value(vec![3, 1, 4], 2, 6);
    let v = inside.get_value(1);
    inside.set_value(1, v);
    assert_eq!(inside.cells(), vec![3, 1, 4]);

    let mut beyond = Cythan::new_config(vec![3], 2, |i| i + 2);
    let v = beyond.get_value(4);
    beyond.set_value(4, v);
    // The tape grew, but every address still reads what it read before.
    assert_eq!(beyond.cells(), vec![3, 3, 4, 5, 6]);
    assert_eq!(beyond.get_value(0), 3);
    assert_eq!(beyond.get_value(4), 6);
    assert_eq!(beyond.get_value(5), 7);
}

// Stepping an empty tape materializes cell 0 from the generator before
// advancing it.
#[test]
fn step_on_empty_tape() {
    let mut cythan: Cythan<FixedOnly> = Cythan::new_static_value(vec![], 2, 1);
    // old pc = generator value 1, new pc = 3; operands at 1 and 2 are both
    // generator values 1; the copy writes read(1) = 1 at address 1.
    cythan.next();
    assert_eq!(cythan.cells(), vec![3, 1]);
}

// With a step size other than 2, the operands are still the first two cells
// at the old program counter.
#[test]
fn step_size_three_still_reads_two_operands() {
    let mut cythan: Cythan<FixedOnly> = Cythan::new_static_value(vec![1, 3, 2, 8], 3, 0);
    // old pc = 1, new pc = 4; operands at cells 1 and 2: src = 3, dst = 2.
    cythan.next();
    assert_eq!(cythan.cells(), vec![4, 3, 8, 8]);
    assert_eq!(cythan.get_step(), 3);
}

// The copy's source read sees the already-advanced program counter when the
// source address is cell 0 itself.
#[test]
fn source_address_zero_copies_the_new_pc() {
    let mut cythan: Cythan<FixedOnly> = Cythan::new(vec![1, 0, 3, 9]);
    // old pc = 1, operands at cells 1 and 2: src = 0, dst = 3; cell 0 already
    // holds the new pc 3 when the source is read.
    cythan.next();
    assert_eq!(cythan.cells(), vec![3, 0, 3, 3]);
}

#[test]
fn get_step_reports_construction_step() {
    let a: Cythan<FixedOnly> = Cythan::new(vec![]);
    assert_eq!(a.get_step(), 2);
    let b: Cythan<FixedOnly> = Cythan::new_static_value(vec![], 7, 0);
    assert_eq!(b.get_step(), 7);
}
