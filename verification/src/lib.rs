//! A catalogue of named modules: each name maps to metadata and a factory, and a
//! security validator decides from the metadata whether a module may be built.
//!
//! The registry ([`ModuleRegistry`]) is an ordinary value: whoever shares it
//! between threads puts it behind a lock of their choice. The validator
//! ([`SecurityValidator`]) looks at one module's metadata at a time and checks
//! presence, shape and freshness of its security fields; it performs no
//! cryptography and enforces no sandbox.

pub mod clock;
pub mod constants;
pub mod error;
pub mod laws;
pub mod registry;
pub mod security;
pub mod text;
pub mod types;

pub use crate::error::{RegistryError, RegistryErrorView};
pub use crate::registry::{ModuleRegistry, RegistryEntryView};
pub use crate::security::{
    SecurityCheckResult, SecurityGate, SecurityIssue, SecurityRiskLevel, SecuritySeverity,
    SecurityValidator, SecurityWarning,
};
pub use crate::types::{
    CodeReviewStatus, Module, ModuleMetadata, ModulePermissions, ModuleRegistration,
    ModuleSignature, SandboxConfig, SecurityReport, SupplyChainInfo,
};
