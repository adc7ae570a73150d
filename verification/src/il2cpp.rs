//! The runtime side: handles, modules, the function table and the checks
//! on what the runtime answers.

pub mod api;
pub mod constants;
pub mod functions;
pub mod module;
pub mod types;
