//! A plugin system's binary contract, verified: identities and versions,
//! capability negotiation, the instance store with its liveness count, the
//! cross-boundary value model and its ownership ledger, the capability
//! tables, and the host's loader, dispatch and state logic.

use vstd::prelude::*;

pub mod async_tasks;
pub mod dispatch;
pub mod error;
pub mod host_services;
pub mod host_state;
pub mod instance;
pub mod interfaces;
pub mod loader;
pub mod memory;
pub mod modules;
pub mod negotiation;
pub mod proxy;
pub mod resident;
pub mod runtime;
pub mod shell;
pub mod simple_plugin;
pub mod strings;
pub mod structs;
pub mod text;
pub mod textfmt;
pub mod types;

pub use error::{CubeMelonError, CubeMelonPluginErrorCode, plugin_error_code_to_string};
pub use instance::{CubeMelonPlugin, InstanceStore, PluginBox};
pub use memory::{AllocationLedger, CubeMelonString, CubeMelonValue};
pub use structs::{CubeMelonPluginBasicInfo, CubeMelonTaskRequest, CubeMelonTaskResult};
pub use types::{CubeMelonLanguage, CubeMelonPluginType, CubeMelonUUID, CubeMelonVersion};

verus! {

/// Prepares the SDK for use.
pub fn initialize_sdk() {
    memory::initialize_memory_system();
}

/// Releases what the SDK set up.
pub fn cleanup_sdk() {
    memory::cleanup_memory_system();
}

} // verus!
