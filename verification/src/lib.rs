//! A deterministic, embeddable token-based state machine engine in the
//! style of a Petri net: a fixed-length vector of non-negative integer
//! "places" evolves through named transitions, each given by a delta
//! vector, an informational role tag, and zero or more guard vectors.
//! The engine decides whether a requested transition is legal (no place
//! driven negative, no declared capacity exceeded, no guard violated)
//! and, if so, atomically commits the new state.

pub mod fixtures;
pub mod machine;
pub mod vector;

pub use fixtures::counter_machine;
pub use fixtures::new;
pub use machine::Machine;
pub use machine::MachineError;
pub use machine::PlaceMap;
pub use machine::StateMachine;
pub use machine::Transition;
pub use vector::vadd;
