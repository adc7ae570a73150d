//! Metadata dumper for IL2CPP runtimes.
//!
//! The library holds every decision of the dump: how the runtime's function
//! table is bound, how each runtime answer is checked, in which order the
//! metadata graph is walked, how method offsets are keyed and how the
//! pseudo-source text is laid out. It touches neither the runtime nor the
//! system: the [`dumper`] hands out one request at a time, the caller
//! carries it out and resumes the dumper with the answer.
//!
//! - [`il2cpp`]: handles, modules, the function table and the checks on
//!   what the runtime answers.
//! - [`walker`]: the walk over domain, assemblies, images and classes.
//! - [`outputs`]: the method-offset map and the pseudo-source text.
//! - [`dumper`]: the run from the first wait to the last printed line.
//! - [`fixture`]: a model of a runtime and the proof that a walk over it
//!   gathers what the emitters write for it.

pub mod dumper;
pub mod fixture;
pub mod il2cpp;
pub mod metadata;
pub mod outputs;
pub mod protocol;
pub mod text;
pub mod walker;
