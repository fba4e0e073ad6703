//! Interactive, confirmable execution of external commands: every step is
//! shown to an operator, run only on their say-so, and held against an
//! expectation once it has finished.

pub mod text;
pub mod runner;
pub mod gate;
pub mod step;
pub mod runbook;
pub mod machine;
pub mod trace;
pub mod terraform;
pub mod kubectl;
pub mod helm;
pub mod heapster;
pub mod config;
pub mod cluster;
pub mod launch;
pub mod namespace;
pub mod argo;
pub mod destroy;
