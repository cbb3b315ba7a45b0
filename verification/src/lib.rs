//! Core of a small Linux container runtime: control-group planning and
//! statistics parsing, namespace configuration, supervision decisions and
//! resource monitoring, with every rule stated as a contract.
//!
//! Nothing here touches the operating system. Each operation says which
//! files are to be written or which calls are to be made, and takes what
//! the kernel answered; the program around this library does the rest.

pub mod backend;
pub mod config;
pub mod controller;
pub mod error;
pub mod events;
pub mod executor;
pub mod manager;
pub mod monitor;
pub mod resources;
pub mod runner;
pub mod security;
pub mod stats;
pub mod text;
pub mod types;

pub use backend::MockBackend;
pub use config::{NamespaceConfig, NamespaceFlags};
pub use controller::CGroupController;
pub use error::Error;
pub use events::ContainerEvent;
pub use executor::{ExecutionResult, NamespaceExecutor};
pub use manager::{NamespaceInfo, NamespaceManager};
pub use monitor::ResourceMonitor;
pub use resources::{CpuCores, CpuLimit, CpuTime, MemoryLimit, MemorySize, ResourceStats};
pub use security::SecurityManager;
pub use types::{ContainerId, ProcessId};
