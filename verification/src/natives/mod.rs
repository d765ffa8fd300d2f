//! Host functions that the Nexus runtime exports to compiled programs.

pub mod clock;
pub mod math;
pub mod stdio;
