//! The two artifacts of a dump: the method-offset map and the pseudo-source
//! text.

pub mod csdumper;
pub mod json;
pub mod methoddumper;
