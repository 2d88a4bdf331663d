//! The metadata model: what the registry records about a module.
//!
//! Every type that owns strings has a view made of `Seq<char>`, and contracts
//! throughout the crate speak of those views.

use std::collections::HashMap;
use vstd::prelude::*;
use vstd::string::StringExecFns;

use crate::constants::{
    default_denied_paths, default_denied_paths_view, DEFAULT_CPU_LIMIT_PERCENT,
    DEFAULT_MEMORY_LIMIT_MB, DEFAULT_TIMEOUT_SECONDS,
};
use crate::text::{bool_str, bool_text};

verus! {

/// What every module instance can tell about itself.
pub trait Module: Send + Sync {
    /// The module's unique name.
    fn name(&self) -> &str;

    /// The module's classification, such as "processor" or "plugin".
    fn module_type(&self) -> &str;
}

/// The views of a list of strings, element by element.
pub open spec fn strings_view(v: Seq<String>) -> Seq<Seq<char>> {
    v.map_values(|s: String| s@)
}

/// Copies a list of strings.
pub fn clone_strings(v: &Vec<String>) -> (copy: Vec<String>)
    ensures
        strings_view(copy@) == strings_view(v@),
{
    let mut copy: Vec<String> = Vec::new();
    let mut i: usize = 0;
    while i < v.len()
        invariant
            i <= v@.len(),
            copy@.len() == i,
            forall|j: int| 0 <= j < i ==> copy@[j]@ == v@[j]@,
        decreases v@.len() - i,
    {
        copy.push(v[i].clone());
        i += 1;
    }
    copy
}

/// A signature over a module's code. All text fields are opaque to the library.
#[derive(Debug)]
pub struct ModuleSignature {
    /// Hash of the module code.
    pub code_hash: String,
    /// Signature of the code hash.
    pub signature: String,
    /// Key the signature is to be checked with.
    pub public_key: String,
    /// When the signature was made, in seconds since the epoch.
    pub timestamp: u64,
    /// Name of the signature algorithm.
    pub algorithm: String,
}

/// Model of a [`ModuleSignature`].
pub struct ModuleSignatureView {
    pub code_hash: Seq<char>,
    pub signature: Seq<char>,
    pub public_key: Seq<char>,
    pub timestamp: u64,
    pub algorithm: Seq<char>,
}

impl View for ModuleSignature {
    type V = ModuleSignatureView;

    open spec fn view(&self) -> ModuleSignatureView {
        ModuleSignatureView {
            code_hash: self.code_hash@,
            signature: self.signature@,
            public_key: self.public_key@,
            timestamp: self.timestamp,
            algorithm: self.algorithm@,
        }
    }
}

impl Clone for ModuleSignature {
    fn clone(&self) -> (copy: Self)
        ensures
            copy@ == self@,
    {
        ModuleSignature {
            code_hash: self.code_hash.clone(),
            signature: self.signature.clone(),
            public_key: self.public_key.clone(),
            timestamp: self.timestamp,
            algorithm: self.algorithm.clone(),
        }
    }
}

/// Capability flags and resource caps of a module. The value is its own model.
#[derive(Debug)]
pub struct ModulePermissions {
    /// May touch the filesystem.
    pub filesystem_access: bool,
    /// May make network calls.
    pub network_access: bool,
    /// May spawn processes.
    pub process_spawn: bool,
    /// May read environment variables.
    pub env_access: bool,
    /// May use system resources.
    pub system_access: bool,
    /// Memory cap in megabytes.
    pub memory_limit_mb: u64,
    /// CPU cap in percent.
    pub cpu_limit_percent: u8,
    /// Execution timeout in seconds.
    pub timeout_seconds: u64,
}

impl ModulePermissions {
    /// The permissions of a module that was granted nothing: every flag off,
    /// caps at 128 MB, 50 % and 30 s.
    pub open spec fn spec_default() -> ModulePermissions {
        ModulePermissions {
            filesystem_access: false,
            network_access: false,
            process_spawn: false,
            env_access: false,
            system_access: false,
            memory_limit_mb: DEFAULT_MEMORY_LIMIT_MB,
            cpu_limit_percent: DEFAULT_CPU_LIMIT_PERCENT,
            timeout_seconds: DEFAULT_TIMEOUT_SECONDS,
        }
    }
}

impl Default for ModulePermissions {
    fn default() -> (permissions: Self)
        ensures
            permissions == ModulePermissions::spec_default(),
    {
        ModulePermissions {
            filesystem_access: false,
            network_access: false,
            process_spawn: false,
            env_access: false,
            system_access: false,
            memory_limit_mb: DEFAULT_MEMORY_LIMIT_MB,
            cpu_limit_percent: DEFAULT_CPU_LIMIT_PERCENT,
            timeout_seconds: DEFAULT_TIMEOUT_SECONDS,
        }
    }
}

impl Clone for ModulePermissions {
    fn clone(&self) -> (copy: Self)
        ensures
            copy == *self,
    {
        ModulePermissions {
            filesystem_access: self.filesystem_access,
            network_access: self.network_access,
            process_spawn: self.process_spawn,
            env_access: self.env_access,
            system_access: self.system_access,
            memory_limit_mb: self.memory_limit_mb,
            cpu_limit_percent: self.cpu_limit_percent,
            timeout_seconds: self.timeout_seconds,
        }
    }
}

/// Where a module stands in code review. Only `Approved` counts as approved.
#[derive(Debug)]
pub enum CodeReviewStatus {
    /// Not reviewed yet.
    Pending,
    /// Under review.
    InProgress,
    /// The module was approved, by whom and when.
    Approved { reviewer: String, timestamp: u64 },
    /// The module was turned down, for the `reason` given.
    Rejected { reviewer: String, reason: String, timestamp: u64 },
}

/// Model of a [`CodeReviewStatus`].
pub enum CodeReviewStatusView {
    Pending,
    InProgress,
    Approved { reviewer: Seq<char>, timestamp: u64 },
    Rejected { reviewer: Seq<char>, reason: Seq<char>, timestamp: u64 },
}

impl View for CodeReviewStatus {
    type V = CodeReviewStatusView;

    open spec fn view(&self) -> CodeReviewStatusView {
        match self {
            CodeReviewStatus::Pending => CodeReviewStatusView::Pending,
            CodeReviewStatus::InProgress => CodeReviewStatusView::InProgress,
            CodeReviewStatus::Approved { reviewer, timestamp } => CodeReviewStatusView::Approved {
                reviewer: reviewer@,
                timestamp: *timestamp,
            },
            CodeReviewStatus::Rejected {
                reviewer,
                reason,
                timestamp,
            } => CodeReviewStatusView::Rejected {
                reviewer: reviewer@,
                reason: reason@,
                timestamp: *timestamp,
            },
        }
    }
}

impl Clone for CodeReviewStatus {
    fn clone(&self) -> (copy: Self)
        ensures
            copy@ == self@,
    {
        match self {
            CodeReviewStatus::Pending => CodeReviewStatus::Pending,
            CodeReviewStatus::InProgress => CodeReviewStatus::InProgress,
            CodeReviewStatus::Approved { reviewer, timestamp } => CodeReviewStatus::Approved {
                reviewer: reviewer.clone(),
                timestamp: *timestamp,
            },
            CodeReviewStatus::Rejected { reviewer, reason, timestamp } => {
                CodeReviewStatus::Rejected {
                    reviewer: reviewer.clone(),
                    reason: reason.clone(),
                    timestamp: *timestamp,
                }
            },
        }
    }
}

/// Provenance of a module: where its source lives and how it was built.
#[derive(Debug)]
pub struct SupplyChainInfo {
    /// Source repository URL.
    pub source_url: String,
    /// Commit the module was built from.
    pub commit_hash: String,
    /// When the module was built, in seconds since the epoch.
    pub build_timestamp: u64,
    /// Dependencies, name to version.
    pub dependencies: HashMap<String, String>,
    /// Description of the build environment.
    pub build_environment: String,
    /// Signature of whoever verified the provenance, if any. It is carried, not checked.
    pub verifier_signature: Option<String>,
}

/// Model of a [`SupplyChainInfo`].
pub struct SupplyChainInfoView {
    pub source_url: Seq<char>,
    pub commit_hash: Seq<char>,
    pub build_timestamp: u64,
    pub dependencies: Map<String, String>,
    pub build_environment: Seq<char>,
    pub verifier_signature: Option<Seq<char>>,
}

impl View for SupplyChainInfo {
    type V = SupplyChainInfoView;

    open spec fn view(&self) -> SupplyChainInfoView {
        SupplyChainInfoView {
            source_url: self.source_url@,
            commit_hash: self.commit_hash@,
            build_timestamp: self.build_timestamp,
            dependencies: self.dependencies@,
            build_environment: self.build_environment@,
            verifier_signature: match self.verifier_signature {
                Some(s) => Some(s@),
                None => None,
            },
        }
    }
}

impl Clone for SupplyChainInfo {
    fn clone(&self) -> (copy: Self)
        ensures
            copy@ == self@,
    {
        SupplyChainInfo {
            source_url: self.source_url.clone(),
            commit_hash: self.commit_hash.clone(),
            build_timestamp: self.build_timestamp,
            dependencies: self.dependencies.clone(),
            build_environment: self.build_environment.clone(),
            verifier_signature: match &self.verifier_signature {
                Some(s) => Some(s.clone()),
                None => None,
            },
        }
    }
}

/// The isolation a module declares for its execution. The registry records it
/// and enforces none of it.
#[derive(Debug)]
pub struct SandboxConfig {
    /// Sandboxing is switched on.
    pub enabled: bool,
    /// Isolate from the host filesystem.
    pub filesystem_isolation: bool,
    /// Isolate network access.
    pub network_isolation: bool,
    /// Isolate the process environment.
    pub process_isolation: bool,
    /// Filesystem is read-only.
    pub read_only_fs: bool,
    /// Paths the module may use.
    pub allowed_paths: Vec<String>,
    /// Paths the module may not use.
    pub denied_paths: Vec<String>,
}

/// Model of a [`SandboxConfig`].
pub struct SandboxConfigView {
    pub enabled: bool,
    pub filesystem_isolation: bool,
    pub network_isolation: bool,
    pub process_isolation: bool,
    pub read_only_fs: bool,
    pub allowed_paths: Seq<Seq<char>>,
    pub denied_paths: Seq<Seq<char>>,
}

impl SandboxConfigView {
    /// The sandbox a module gets unless told otherwise: enabled, every
    /// isolation on, nothing allowed, and the system directories denied.
    pub open spec fn spec_default() -> SandboxConfigView {
        SandboxConfigView {
            enabled: true,
            filesystem_isolation: true,
            network_isolation: true,
            process_isolation: true,
            read_only_fs: true,
            allowed_paths: Seq::empty(),
            denied_paths: default_denied_paths_view(),
        }
    }
}

impl View for SandboxConfig {
    type V = SandboxConfigView;

    open spec fn view(&self) -> SandboxConfigView {
        SandboxConfigView {
            enabled: self.enabled,
            filesystem_isolation: self.filesystem_isolation,
            network_isolation: self.network_isolation,
            process_isolation: self.process_isolation,
            read_only_fs: self.read_only_fs,
            allowed_paths: strings_view(self.allowed_paths@),
            denied_paths: strings_view(self.denied_paths@),
        }
    }
}

impl Default for SandboxConfig {
    fn default() -> (config: Self)
        ensures
            config@ == SandboxConfigView::spec_default(),
    {
        let config = SandboxConfig {
            enabled: true,
            filesystem_isolation: true,
            network_isolation: true,
            process_isolation: true,
            read_only_fs: true,
            allowed_paths: Vec::new(),
            denied_paths: default_denied_paths(),
        };
        assert(strings_view(config.allowed_paths@) =~= Seq::<Seq<char>>::empty());
        config
    }
}

impl Clone for SandboxConfig {
    fn clone(&self) -> (copy: Self)
        ensures
            copy@ == self@,
    {
        SandboxConfig {
            enabled: self.enabled,
            filesystem_isolation: self.filesystem_isolation,
            network_isolation: self.network_isolation,
            process_isolation: self.process_isolation,
            read_only_fs: self.read_only_fs,
            allowed_paths: clone_strings(&self.allowed_paths),
            denied_paths: clone_strings(&self.denied_paths),
        }
    }
}

/// Everything the registry records about one module.
#[derive(Debug)]
pub struct ModuleMetadata {
    /// The name the module is registered under.
    pub name: String,
    /// Free-form classification of the module.
    pub module_type: String,
    /// Name of the function that builds the module. Diagnostic only.
    pub instantiate_fn_name: String,
    /// Where the module was declared. Diagnostic only.
    pub declaring_path: String,
    /// Name of the type behind the module. Diagnostic only.
    pub struct_name: String,
    /// Signature over the module's code, if it has one.
    pub signature: Option<ModuleSignature>,
    /// What the module may do.
    pub permissions: ModulePermissions,
    /// Where the module stands in code review.
    pub review_status: CodeReviewStatus,
    /// Provenance of the module, if known.
    pub supply_chain: Option<SupplyChainInfo>,
    /// Isolation the module declares.
    pub sandbox_config: SandboxConfig,
}

/// Model of a [`ModuleMetadata`].
pub struct ModuleMetadataView {
    pub name: Seq<char>,
    pub module_type: Seq<char>,
    pub instantiate_fn_name: Seq<char>,
    pub declaring_path: Seq<char>,
    pub struct_name: Seq<char>,
    pub signature: Option<ModuleSignatureView>,
    pub permissions: ModulePermissions,
    pub review_status: CodeReviewStatusView,
    pub supply_chain: Option<SupplyChainInfoView>,
    pub sandbox_config: SandboxConfigView,
}

impl ModuleMetadataView {
    /// Metadata that carries the given security fields and is otherwise fresh:
    /// review pending and the default sandbox.
    pub open spec fn secure(
        name: Seq<char>,
        module_type: Seq<char>,
        instantiate_fn_name: Seq<char>,
        declaring_path: Seq<char>,
        struct_name: Seq<char>,
        signature: Option<ModuleSignatureView>,
        permissions: ModulePermissions,
        supply_chain: Option<SupplyChainInfoView>,
    ) -> ModuleMetadataView {
        ModuleMetadataView {
            name,
            module_type,
            instantiate_fn_name,
            declaring_path,
            struct_name,
            signature,
            permissions,
            review_status: CodeReviewStatusView::Pending,
            supply_chain,
            sandbox_config: SandboxConfigView::spec_default(),
        }
    }

    /// Metadata with no security information at all: no signature, default
    /// permissions, review pending, no provenance, default sandbox.
    pub open spec fn plain(
        name: Seq<char>,
        module_type: Seq<char>,
        instantiate_fn_name: Seq<char>,
        declaring_path: Seq<char>,
        struct_name: Seq<char>,
    ) -> ModuleMetadataView {
        ModuleMetadataView::secure(
            name,
            module_type,
            instantiate_fn_name,
            declaring_path,
            struct_name,
            None,
            ModulePermissions::spec_default(),
            None,
        )
    }

    /// A signature is present. Presence only: nothing is said of its freshness.
    pub open spec fn has_valid_signature(self) -> bool {
        self.signature is Some
    }

    /// The review status is `Approved`.
    pub open spec fn is_approved(self) -> bool {
        self.review_status is Approved
    }

    /// Provenance is present.
    pub open spec fn has_supply_chain(self) -> bool {
        self.supply_chain is Some
    }

    /// The same metadata with another review status.
    pub open spec fn with_review_status(self, status: CodeReviewStatusView) -> ModuleMetadataView {
        ModuleMetadataView { review_status: status, ..self }
    }

    /// The one-line description of the metadata.
    pub open spec fn summary(self) -> Seq<char> {
        "Module: "@ + self.name + " (type: "@ + self.module_type + ") - signature: "@ + bool_text(
            self.has_valid_signature(),
        ) + ", approved: "@ + bool_text(self.is_approved()) + ", supply_chain: "@ + bool_text(
            self.has_supply_chain(),
        ) + ", sandbox: "@ + bool_text(self.sandbox_config.enabled)
    }
}

/// The model of an optional signature.
pub open spec fn signature_view(signature: Option<ModuleSignature>) -> Option<ModuleSignatureView> {
    match signature {
        Some(s) => Some(s@),
        None => None,
    }
}

/// The model of optional provenance.
pub open spec fn supply_chain_view(supply_chain: Option<SupplyChainInfo>) -> Option<
    SupplyChainInfoView,
> {
    match supply_chain {
        Some(c) => Some(c@),
        None => None,
    }
}

impl View for ModuleMetadata {
    type V = ModuleMetadataView;

    open spec fn view(&self) -> ModuleMetadataView {
        ModuleMetadataView {
            name: self.name@,
            module_type: self.module_type@,
            instantiate_fn_name: self.instantiate_fn_name@,
            declaring_path: self.declaring_path@,
            struct_name: self.struct_name@,
            signature: signature_view(self.signature),
            permissions: self.permissions,
            review_status: self.review_status@,
            supply_chain: supply_chain_view(self.supply_chain),
            sandbox_config: self.sandbox_config@,
        }
    }
}

impl Clone for ModuleMetadata {
    fn clone(&self) -> (copy: Self)
        ensures
            copy@ == self@,
    {
        ModuleMetadata {
            name: self.name.clone(),
            module_type: self.module_type.clone(),
            instantiate_fn_name: self.instantiate_fn_name.clone(),
            declaring_path: self.declaring_path.clone(),
            struct_name: self.struct_name.clone(),
            signature: match &self.signature {
                Some(s) => Some(s.clone()),
                None => None,
            },
            permissions: self.permissions.clone(),
            review_status: self.review_status.clone(),
            supply_chain: match &self.supply_chain {
                Some(c) => Some(c.clone()),
                None => None,
            },
            sandbox_config: self.sandbox_config.clone(),
        }
    }
}

impl ModuleMetadata {
    /// Metadata for a module about which nothing but its identity is known.
    pub fn new(
        name: String,
        module_type: String,
        instantiate_fn_name: String,
        declaring_path: String,
        struct_name: String,
    ) -> (metadata: Self)
        ensures
            metadata@ == ModuleMetadataView::plain(
                name@,
                module_type@,
                instantiate_fn_name@,
                declaring_path@,
                struct_name@,
            ),
    {
        ModuleMetadata {
            name,
            module_type,
            instantiate_fn_name,
            declaring_path,
            struct_name,
            signature: None,
            permissions: ModulePermissions::default(),
            review_status: CodeReviewStatus::Pending,
            supply_chain: None,
            sandbox_config: SandboxConfig::default(),
        }
    }

    /// Metadata that carries security fields. Review always starts as pending:
    /// approval is a later step of its own.
    pub fn secure(
        name: String,
        module_type: String,
        instantiate_fn_name: String,
        declaring_path: String,
        struct_name: String,
        signature: Option<ModuleSignature>,
        permissions: ModulePermissions,
        supply_chain: Option<SupplyChainInfo>,
    ) -> (metadata: Self)
        ensures
            metadata@ == ModuleMetadataView::secure(
                name@,
                module_type@,
                instantiate_fn_name@,
                declaring_path@,
                struct_name@,
                signature_view(signature),
                permissions,
                supply_chain_view(supply_chain),
            ),
    {
        ModuleMetadata {
            name,
            module_type,
            instantiate_fn_name,
            declaring_path,
            struct_name,
            signature,
            permissions,
            review_status: CodeReviewStatus::Pending,
            supply_chain,
            sandbox_config: SandboxConfig::default(),
        }
    }

    /// Whether a signature is present. This does not check freshness or
    /// algorithm; the validator does.
    pub fn has_valid_signature(&self) -> (present: bool)
        ensures
            present == self@.has_valid_signature(),
    {
        self.signature.is_some()
    }

    /// Whether the module passed code review.
    pub fn is_approved(&self) -> (approved: bool)
        ensures
            approved == self@.is_approved(),
    {
        match self.review_status {
            CodeReviewStatus::Approved { .. } => true,
            _ => false,
        }
    }

    /// Whether provenance is present.
    pub fn has_supply_chain(&self) -> (present: bool)
        ensures
            present == self@.has_supply_chain(),
    {
        self.supply_chain.is_some()
    }

    /// A one-line description of the metadata.
    pub fn summary(&self) -> (text: String)
        ensures
            text@ == self@.summary(),
    {
        let mut text = String::from_str("Module: ");
        text.append(self.name.as_str());
        text.append(" (type: ");
        text.append(self.module_type.as_str());
        text.append(") - signature: ");
        text.append(bool_str(self.has_valid_signature()));
        text.append(", approved: ");
        text.append(bool_str(self.is_approved()));
        text.append(", supply_chain: ");
        text.append(bool_str(self.has_supply_chain()));
        text.append(", sandbox: ");
        text.append(bool_str(self.sandbox_config.enabled));
        text
    }
}

/// What the registry reports about one module's security posture. The two
/// `_verified` flags record presence only, as the `has_` flags do.
#[derive(Debug)]
pub struct SecurityReport {
    pub name: String,
    pub has_signature: bool,
    pub signature_verified: bool,
    pub is_approved: bool,
    pub has_supply_chain: bool,
    pub supply_chain_verified: bool,
    pub permissions: ModulePermissions,
    pub sandbox_enabled: bool,
}

/// Model of a [`SecurityReport`].
pub struct SecurityReportView {
    pub name: Seq<char>,
    pub has_signature: bool,
    pub signature_verified: bool,
    pub is_approved: bool,
    pub has_supply_chain: bool,
    pub supply_chain_verified: bool,
    pub permissions: ModulePermissions,
    pub sandbox_enabled: bool,
}

impl SecurityReportView {
    /// The report that belongs to a module's metadata, filed under `name`.
    pub open spec fn of(name: Seq<char>, metadata: ModuleMetadataView) -> SecurityReportView {
        SecurityReportView {
            name,
            has_signature: metadata.signature is Some,
            signature_verified: metadata.signature is Some,
            is_approved: metadata.review_status is Approved,
            has_supply_chain: metadata.supply_chain is Some,
            supply_chain_verified: metadata.supply_chain is Some,
            permissions: metadata.permissions,
            sandbox_enabled: metadata.sandbox_config.enabled,
        }
    }
}

impl View for SecurityReport {
    type V = SecurityReportView;

    open spec fn view(&self) -> SecurityReportView {
        SecurityReportView {
            name: self.name@,
            has_signature: self.has_signature,
            signature_verified: self.signature_verified,
            is_approved: self.is_approved,
            has_supply_chain: self.has_supply_chain,
            supply_chain_verified: self.supply_chain_verified,
            permissions: self.permissions,
            sandbox_enabled: self.sandbox_enabled,
        }
    }
}

impl Clone for SecurityReport {
    fn clone(&self) -> (copy: Self)
        ensures
            copy@ == self@,
    {
        SecurityReport {
            name: self.name.clone(),
            has_signature: self.has_signature,
            signature_verified: self.signature_verified,
            is_approved: self.is_approved,
            has_supply_chain: self.has_supply_chain,
            supply_chain_verified: self.supply_chain_verified,
            permissions: self.permissions.clone(),
            sandbox_enabled: self.sandbox_enabled,
        }
    }
}

impl SecurityReport {
    /// Derives the report of a module from its metadata.
    pub fn of(name: &str, metadata: &ModuleMetadata) -> (report: SecurityReport)
        ensures
            report@ == SecurityReportView::of(name@, metadata@),
    {
        SecurityReport {
            name: name.to_string(),
            has_signature: metadata.signature.is_some(),
            signature_verified: metadata.signature.is_some(),
            is_approved: metadata.is_approved(),
            has_supply_chain: metadata.supply_chain.is_some(),
            supply_chain_verified: metadata.supply_chain.is_some(),
            permissions: metadata.permissions.clone(),
            sandbox_enabled: metadata.sandbox_config.enabled,
        }
    }
}

/// One record handed over by whatever collects modules before the registry is
/// first used: identity, diagnostic names and the factory.
pub struct ModuleRegistration<F> {
    pub name: &'static str,
    pub module_type: &'static str,
    pub instantiate_fn_name: &'static str,
    pub declaring_path: &'static str,
    pub struct_name: &'static str,
    pub factory: F,
}

} // verus!
