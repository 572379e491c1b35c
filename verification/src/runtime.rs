//! Execution environments: the capability contract and its implementation
//! for a host with full access to the operating system.

pub mod native;
pub mod shell;
pub mod storage;
pub mod traits;

pub use native::NativeRuntime;
pub use traits::{HostEnvironment, HostFamily, InvocationError, ProcessDescription, RuntimeAdapter};
