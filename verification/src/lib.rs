//! Dual-measurement firmware cycle benchmarking.
//!
//! The library holds the verified core of a tool that compares two
//! independent measurements of a firmware routine's execution cost:
//! an empirical cycle count sampled from a free-running hardware
//! counter through a debug probe, and a worst-case bound obtained by
//! symbolically exploring every feasible execution path of the same
//! code.
//!
//! The probe driver and the symbolic execution engine are external
//! collaborators that perform I/O; the surrounding application drives
//! them and hands their observations to the functions here, which make
//! every decision: the sampler protocol state machine, the calibrated
//! cycle computation, the worst-case path aggregation, and the report
//! rendering.

pub mod cycles;
pub mod errors;
pub mod estimator;
pub mod report;
pub mod sampler;
