//! A runtime as a fixture: a model of the metadata graph that a runtime
//! holds, the answers that such a runtime gives to a walk, and the proof
//! that a walk over it gathers exactly what the emitters write for the
//! graph.

pub mod classes;
pub mod model;
pub mod offsets;
pub mod replay;
pub mod source;
pub mod walk;
