//! A library for the Cythan machine: a minimal Turing-complete computer whose
//! entire state is one growable tape of non-negative integers.
//!
//! Each iteration reads the program counter (cell 0), advances it by the
//! machine's step size, and performs a single memory copy whose source and
//! destination addresses are themselves read from the tape. All higher-level
//! behaviour (branches, loops, arithmetic) emerges from how the initial tape
//! is laid out.
//!
//! The exact meaning of every operation is given by the spec functions in
//! [`semantics`], and every executable function carries a contract proved
//! against them.

/// The mathematical model of the tape and of the single-step transition,
/// together with the laws that hold of them.
pub mod semantics;

/// The default-value generator: the policy that answers reads past the end of
/// the tape and fills cells created by growth.
mod generator;

/// The machine itself: the growable tape, its generator, and the step
/// operation.
mod machine;

pub use machine::Cythan;
