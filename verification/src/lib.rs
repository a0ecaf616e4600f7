//! Interception and routing policy for the compiler invocations of a build:
//! each unit's command line is scanned, classified, rewritten and routed
//! either to a child process or to the embedded analysis driver.

pub mod classifier;
pub mod config;
pub mod driver;
pub mod error;
pub mod executor;
pub mod invocation;
pub mod machine;
pub mod rewriter;
pub mod scanner;
pub mod sysroot;
