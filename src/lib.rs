//! Coverage orchestration for on-chain contract projects: configuration,
//! toolchain checks, command lines for the build and test tools, the
//! line-exclusion rules handed to the coverage aggregator, report dispatch,
//! and the sequential pipeline that ties these stages together.
pub mod util;
pub mod config;
pub mod error;
pub mod guard;
pub mod command;
pub mod artifacts;
pub mod report;
pub mod exclusion;
pub mod aggregate;
pub mod pipeline;
pub mod laws;
