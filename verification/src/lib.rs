//! Verified core of the embedded-Python build tasks: hex escaping of the
//! PyO3 build configuration, the task plans run by the `xtask` driver, the
//! cargo and pip invocations they issue, and the rules that turn outcomes
//! into results.
pub mod hex;
pub mod strings;
pub mod pyo3_config;
pub mod cargo;
pub mod runner;
pub mod plan;
pub mod task;
pub mod python;
pub mod pip;
