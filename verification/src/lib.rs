//! A project automation library: a declarative configuration names a package,
//! its external dependencies and a set of tasks; the library validates the
//! configuration, probes the executable search path for required binaries,
//! drives dependency installation (git clones and an external package
//! manager), and dispatches the entry task to its runtime.

pub mod dependencies;
pub mod logger;
pub mod task_runner;
pub mod types;
