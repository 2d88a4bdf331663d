//! The security validator: what a module's metadata says about whether the
//! module can be trusted.
//!
//! The validator checks that security metadata is present, well shaped and
//! fresh. It performs no cryptographic operation and enforces no sandbox.
//! Every check that depends on the time comes in two forms: one that takes the
//! time as an argument, with an exact contract, and one that reads the clock.

use vstd::prelude::*;
use vstd::string::StringExecFns;

use crate::clock::current_unix_seconds;
use crate::constants::{DEFAULT_SIGNATURE_ALGORITHM, SIGNATURE_EXPIRY_SECONDS};
use crate::text::{decimal_string, decimal_text, same_text};
use crate::types::{ModuleMetadata, ModuleMetadataView, ModulePermissions};

verus! {

/// How grave a security issue is.
#[derive(Debug, Clone, Copy, PartialEq, Eq, Structural)]
pub enum SecuritySeverity {
    Low,
    Medium,
    High,
    Critical,
}

/// The overall risk a check found: the gravest severity among its issues.
#[derive(Debug, Clone, Copy, PartialEq, Eq, Structural)]
pub enum SecurityRiskLevel {
    /// No issue was found. It reads "None" in a summary.
    NoRisk,
    Low,
    Medium,
    High,
    Critical,
}

/// A finding that makes a module insecure.
#[derive(Debug)]
pub struct SecurityIssue {
    pub severity: SecuritySeverity,
    pub message: String,
    pub component: String,
}

/// Model of a [`SecurityIssue`].
pub struct SecurityIssueView {
    pub severity: SecuritySeverity,
    pub message: Seq<char>,
    pub component: Seq<char>,
}

impl View for SecurityIssue {
    type V = SecurityIssueView;

    open spec fn view(&self) -> SecurityIssueView {
        SecurityIssueView {
            severity: self.severity,
            message: self.message@,
            component: self.component@,
        }
    }
}

impl Clone for SecurityIssue {
    fn clone(&self) -> (copy: Self)
        ensures
            copy@ == self@,
    {
        SecurityIssue {
            severity: self.severity,
            message: self.message.clone(),
            component: self.component.clone(),
        }
    }
}

/// A check that could not be carried out. No check of this validator can fail
/// to run, so it never produces one; the type keeps the two kinds of finding
/// apart.
#[derive(Debug)]
pub struct SecurityWarning {
    pub message: String,
    pub component: String,
}

/// Model of a [`SecurityWarning`].
pub struct SecurityWarningView {
    pub message: Seq<char>,
    pub component: Seq<char>,
}

impl View for SecurityWarning {
    type V = SecurityWarningView;

    open spec fn view(&self) -> SecurityWarningView {
        SecurityWarningView { message: self.message@, component: self.component@ }
    }
}

impl Clone for SecurityWarning {
    fn clone(&self) -> (copy: Self)
        ensures
            copy@ == self@,
    {
        SecurityWarning { message: self.message.clone(), component: self.component.clone() }
    }
}

/// The models of a list of issues, element by element.
pub open spec fn issues_view(issues: Seq<SecurityIssue>) -> Seq<SecurityIssueView> {
    issues.map_values(|issue: SecurityIssue| issue@)
}

/// The models of a list of warnings, element by element.
pub open spec fn warnings_view(warnings: Seq<SecurityWarning>) -> Seq<SecurityWarningView> {
    warnings.map_values(|warning: SecurityWarning| warning@)
}

/// The outcome of a comprehensive check of one module.
#[derive(Debug)]
pub struct SecurityCheckResult {
    pub is_secure: bool,
    pub risk_level: SecurityRiskLevel,
    pub issues: Vec<SecurityIssue>,
    pub warnings: Vec<SecurityWarning>,
    pub check_timestamp: u64,
}

/// Model of a [`SecurityCheckResult`].
pub struct SecurityCheckResultView {
    pub is_secure: bool,
    pub risk_level: SecurityRiskLevel,
    pub issues: Seq<SecurityIssueView>,
    pub warnings: Seq<SecurityWarningView>,
    pub check_timestamp: u64,
}

impl View for SecurityCheckResult {
    type V = SecurityCheckResultView;

    open spec fn view(&self) -> SecurityCheckResultView {
        SecurityCheckResultView {
            is_secure: self.is_secure,
            risk_level: self.risk_level,
            issues: issues_view(self.issues@),
            warnings: warnings_view(self.warnings@),
            check_timestamp: self.check_timestamp,
        }
    }
}

impl Clone for SecurityCheckResult {
    fn clone(&self) -> (copy: Self)
        ensures
            copy@ == self@,
    {
        let mut issues: Vec<SecurityIssue> = Vec::new();
        let mut i: usize = 0;
        while i < self.issues.len()
            invariant
                i <= self.issues@.len(),
                issues@.len() == i,
                forall|j: int| 0 <= j < i ==> issues@[j]@ == self.issues@[j]@,
            decreases self.issues@.len() - i,
        {
            issues.push(self.issues[i].clone());
            i += 1;
        }
        let mut warnings: Vec<SecurityWarning> = Vec::new();
        let mut k: usize = 0;
        while k < self.warnings.len()
            invariant
                k <= self.warnings@.len(),
                warnings@.len() == k,
                forall|j: int| 0 <= j < k ==> warnings@[j]@ == self.warnings@[j]@,
            decreases self.warnings@.len() - k,
        {
            warnings.push(self.warnings[k].clone());
            k += 1;
        }
        assert(issues_view(issues@) =~= issues_view(self.issues@));
        assert(warnings_view(warnings@) =~= warnings_view(self.warnings@));
        SecurityCheckResult {
            is_secure: self.is_secure,
            risk_level: self.risk_level,
            issues,
            warnings,
            check_timestamp: self.check_timestamp,
        }
    }
}

/// Whether a signature made at `timestamp` is too old at time `now`: more
/// than a year lies between them. A signature dated after `now` is not too old.
pub open spec fn signature_expired(now: u64, timestamp: u64) -> bool {
    now - timestamp > SIGNATURE_EXPIRY_SECONDS
}

/// Whether the metadata's signature passes at time `now`: it is present, not
/// expired, made with the accepted algorithm, and neither the signature nor
/// the public key is empty.
pub open spec fn signature_valid_at(metadata: ModuleMetadataView, now: u64) -> bool {
    match metadata.signature {
        None => false,
        Some(signature) => {
            &&& !signature_expired(now, signature.timestamp)
            &&& signature.algorithm == DEFAULT_SIGNATURE_ALGORITHM@
            &&& signature.signature.len() > 0
            &&& signature.public_key.len() > 0
        },
    }
}

/// The flag that a permission key stands for. A key that names no permission
/// stands for a permission that is not granted.
pub open spec fn permission_granted(permissions: ModulePermissions, key: Seq<char>) -> bool {
    if key == "filesystem_access"@ {
        permissions.filesystem_access
    } else if key == "network_access"@ {
        permissions.network_access
    } else if key == "process_spawn"@ {
        permissions.process_spawn
    } else if key == "env_access"@ {
        permissions.env_access
    } else if key == "system_access"@ {
        permissions.system_access
    } else {
        false
    }
}

/// Whether the metadata's provenance passes at time `now`: it is present,
/// names a source and a commit, and was not built after `now`.
pub open spec fn supply_chain_valid_at(metadata: ModuleMetadataView, now: u64) -> bool {
    match metadata.supply_chain {
        None => false,
        Some(chain) => {
            &&& chain.source_url.len() > 0
            &&& chain.commit_hash.len() > 0
            &&& chain.build_timestamp <= now
        },
    }
}

/// One of the checks a module must pass before it is built securely, in the
/// order in which they are made.
#[derive(Debug, Clone, Copy, PartialEq, Eq, Structural)]
pub enum SecurityGate {
    /// The signature must pass.
    Signature,
    /// The module must be approved by code review.
    Approval,
    /// The provenance must pass.
    SupplyChain,
}

/// The first gate that the metadata fails at time `now`, if it fails any.
/// The signature is looked at first, then the approval, then the provenance.
pub open spec fn first_failed_gate(metadata: ModuleMetadataView, now: u64) -> Option<SecurityGate> {
    if !signature_valid_at(metadata, now) {
        Some(SecurityGate::Signature)
    } else if !metadata.is_approved() {
        Some(SecurityGate::Approval)
    } else if !supply_chain_valid_at(metadata, now) {
        Some(SecurityGate::SupplyChain)
    } else {
        None
    }
}

/// The issue recorded when the signature does not pass.
pub open spec fn signature_issue() -> SecurityIssueView {
    SecurityIssueView {
        severity: SecuritySeverity::High,
        message: "Module signature verification failed"@,
        component: "signature"@,
    }
}

/// The issue recorded when the module is not approved.
pub open spec fn review_issue() -> SecurityIssueView {
    SecurityIssueView {
        severity: SecuritySeverity::Medium,
        message: "Module not approved by code review"@,
        component: "review"@,
    }
}

/// The issue recorded when the provenance does not pass.
pub open spec fn supply_chain_issue() -> SecurityIssueView {
    SecurityIssueView {
        severity: SecuritySeverity::Medium,
        message: "Supply chain verification failed"@,
        component: "supply_chain"@,
    }
}

/// The issue recorded when a module has system access and no sandbox.
pub open spec fn unsandboxed_system_access_issue() -> SecurityIssueView {
    SecurityIssueView {
        severity: SecuritySeverity::High,
        message: "System access granted without sandboxing"@,
        component: "permissions"@,
    }
}

/// The cross-field rule: system access is granted while the sandbox is off.
pub open spec fn unsandboxed_system_access(metadata: ModuleMetadataView) -> bool {
    metadata.permissions.system_access && !metadata.sandbox_config.enabled
}

/// `issue` if `failed`, nothing otherwise.
pub open spec fn issue_if(failed: bool, issue: SecurityIssueView) -> Seq<SecurityIssueView> {
    if failed {
        seq![issue]
    } else {
        Seq::empty()
    }
}

/// The issues a comprehensive check at time `now` records, in the order of
/// the checks: signature, review, provenance, system access.
pub open spec fn issues_at(metadata: ModuleMetadataView, now: u64) -> Seq<SecurityIssueView> {
    issue_if(!signature_valid_at(metadata, now), signature_issue()) + issue_if(
        !metadata.is_approved(),
        review_issue(),
    ) + issue_if(!supply_chain_valid_at(metadata, now), supply_chain_issue()) + issue_if(
        unsandboxed_system_access(metadata),
        unsandboxed_system_access_issue(),
    )
}

/// Some issue in the list has the given severity.
pub open spec fn has_severity(issues: Seq<SecurityIssueView>, severity: SecuritySeverity) -> bool {
    exists|i: int| 0 <= i < issues.len() && (#[trigger] issues[i]).severity == severity
}

/// The risk level of a list of issues: the gravest severity that occurs in
/// it, and `NoRisk` for the empty list.
pub open spec fn risk_level_of(issues: Seq<SecurityIssueView>) -> SecurityRiskLevel {
    if has_severity(issues, SecuritySeverity::Critical) {
        SecurityRiskLevel::Critical
    } else if has_severity(issues, SecuritySeverity::High) {
        SecurityRiskLevel::High
    } else if has_severity(issues, SecuritySeverity::Medium) {
        SecurityRiskLevel::Medium
    } else if issues.len() > 0 {
        SecurityRiskLevel::Low
    } else {
        SecurityRiskLevel::NoRisk
    }
}

/// The result of a comprehensive check carried out at time `now`.
pub open spec fn check_result_at(
    metadata: ModuleMetadataView,
    now: u64,
) -> SecurityCheckResultView {
    let issues = issues_at(metadata, now);
    SecurityCheckResultView {
        is_secure: issues.len() == 0,
        risk_level: risk_level_of(issues),
        issues,
        warnings: Seq::empty(),
        check_timestamp: now,
    }
}

/// How a risk level reads in a summary.
pub open spec fn risk_level_text(level: SecurityRiskLevel) -> Seq<char> {
    match level {
        SecurityRiskLevel::NoRisk => "None"@,
        SecurityRiskLevel::Low => "Low"@,
        SecurityRiskLevel::Medium => "Medium"@,
        SecurityRiskLevel::High => "High"@,
        SecurityRiskLevel::Critical => "Critical"@,
    }
}

/// The name of a risk level.
pub fn risk_level_str(level: SecurityRiskLevel) -> (text: &'static str)
    ensures
        text@ == risk_level_text(level),
{
    match level {
        SecurityRiskLevel::NoRisk => "None",
        SecurityRiskLevel::Low => "Low",
        SecurityRiskLevel::Medium => "Medium",
        SecurityRiskLevel::High => "High",
        SecurityRiskLevel::Critical => "Critical",
    }
}

/// Stateless checks of one module's metadata.
pub struct SecurityValidator;

impl SecurityValidator {
    /// Checks the signature as of time `now`.
    pub fn verify_signature_at(metadata: &ModuleMetadata, now: u64) -> (valid: bool)
        ensures
            valid == signature_valid_at(metadata@, now),
    {
        match &metadata.signature {
            Some(signature) => {
                if now > signature.timestamp && now - signature.timestamp
                    > SIGNATURE_EXPIRY_SECONDS {
                    return false;
                }
                if !same_text(signature.algorithm.as_str(), DEFAULT_SIGNATURE_ALGORITHM) {
                    return false;
                }
                !signature.signature.as_str().is_empty()
                    && !signature.public_key.as_str().is_empty()
            },
            None => false,
        }
    }

    /// Checks the signature as of the current time. The result is that of
    /// [`Self::verify_signature_at`] for the time the clock gave, whatever it was.
    pub fn verify_signature(metadata: &ModuleMetadata) -> (valid: bool)
        ensures
            exists|now: u64| valid == signature_valid_at(metadata@, now),
            metadata@.signature is None ==> !valid,
    {
        let now = current_unix_seconds();
        Self::verify_signature_at(metadata, now)
    }

    /// Whether the module holds the permission that `required_permission`
    /// names. An unknown name is answered with `false`.
    pub fn check_permissions(metadata: &ModuleMetadata, required_permission: &str) -> (granted:
        bool)
        ensures
            granted == permission_granted(metadata@.permissions, required_permission@),
    {
        if same_text(required_permission, "filesystem_access") {
            metadata.permissions.filesystem_access
        } else if same_text(required_permission, "network_access") {
            metadata.permissions.network_access
        } else if same_text(required_permission, "process_spawn") {
            metadata.permissions.process_spawn
        } else if same_text(required_permission, "env_access") {
            metadata.permissions.env_access
        } else if same_text(required_permission, "system_access") {
            metadata.permissions.system_access
        } else {
            false
        }
    }

    /// Whether the module passed code review.
    pub fn is_approved(metadata: &ModuleMetadata) -> (approved: bool)
        ensures
            approved == metadata@.is_approved(),
    {
        metadata.is_approved()
    }

    /// Checks the provenance as of time `now`.
    pub fn verify_supply_chain_at(metadata: &ModuleMetadata, now: u64) -> (valid: bool)
        ensures
            valid == supply_chain_valid_at(metadata@, now),
    {
        match &metadata.supply_chain {
            Some(chain) => {
                if chain.source_url.as_str().is_empty() {
                    return false;
                }
                if chain.commit_hash.as_str().is_empty() {
                    return false;
                }
                if chain.build_timestamp > now {
                    return false;
                }
                true
            },
            None => false,
        }
    }

    /// Checks the provenance as of the current time. The result is that of
    /// [`Self::verify_supply_chain_at`] for the time the clock gave, whatever it was.
    pub fn verify_supply_chain(metadata: &ModuleMetadata) -> (valid: bool)
        ensures
            exists|now: u64| valid == supply_chain_valid_at(metadata@, now),
            metadata@.supply_chain is None ==> !valid,
    {
        let now = current_unix_seconds();
        Self::verify_supply_chain_at(metadata, now)
    }

    /// Finds the first gate that the module fails as of time `now`.
    pub fn first_failed_gate_at(metadata: &ModuleMetadata, now: u64) -> (gate: Option<SecurityGate>)
        ensures
            gate == first_failed_gate(metadata@, now),
    {
        if !Self::verify_signature_at(metadata, now) {
            Some(SecurityGate::Signature)
        } else if !Self::is_approved(metadata) {
            Some(SecurityGate::Approval)
        } else if !Self::verify_supply_chain_at(metadata, now) {
            Some(SecurityGate::SupplyChain)
        } else {
            None
        }
    }

    /// Runs every check as of time `now` and collects the findings.
    pub fn comprehensive_check_at(metadata: &ModuleMetadata, now: u64) -> (result:
        SecurityCheckResult)
        ensures
            result@ == check_result_at(metadata@, now),
    {
        let mut issues: Vec<SecurityIssue> = Vec::new();
        let warnings: Vec<SecurityWarning> = Vec::new();

        if !Self::verify_signature_at(metadata, now) {
            issues.push(
                SecurityIssue {
                    severity: SecuritySeverity::High,
                    message: String::from_str("Module signature verification failed"),
                    component: String::from_str("signature"),
                },
            );
        }

        if !Self::is_approved(metadata) {
            issues.push(
                SecurityIssue {
                    severity: SecuritySeverity::Medium,
                    message: String::from_str("Module not approved by code review"),
                    component: String::from_str("review"),
                },
            );
        }

        if !Self::verify_supply_chain_at(metadata, now) {
            issues.push(
                SecurityIssue {
                    severity: SecuritySeverity::Medium,
                    message: String::from_str("Supply chain verification failed"),
                    component: String::from_str("supply_chain"),
                },
            );
        }

        if metadata.permissions.system_access && !metadata.sandbox_config.enabled {
            issues.push(
                SecurityIssue {
                    severity: SecuritySeverity::High,
                    message: String::from_str("System access granted without sandboxing"),
                    component: String::from_str("permissions"),
                },
            );
        }
        assert(issues_view(issues@) =~= issues_at(metadata@, now));

        let is_secure = issues.len() == 0;
        let risk_level = Self::calculate_risk_level(issues.as_slice());
        assert(warnings_view(warnings@) =~= Seq::<SecurityWarningView>::empty());

        SecurityCheckResult { is_secure, risk_level, issues, warnings, check_timestamp: now }
    }

    /// Runs every check as of the current time and collects the findings. The
    /// result is that of [`Self::comprehensive_check_at`] for the time the clock
    /// gave, whatever it was.
    pub fn comprehensive_check(metadata: &ModuleMetadata) -> (result: SecurityCheckResult)
        ensures
            exists|now: u64| result@ == check_result_at(metadata@, now),
            unsandboxed_system_access(metadata@) ==> result@.issues.len() > 0
                && result@.issues.last() == unsandboxed_system_access_issue()
                && !result@.is_secure,
    {
        let now = current_unix_seconds();
        Self::comprehensive_check_at(metadata, now)
    }

    /// The risk level of a list of issues.
    pub fn calculate_risk_level(issues: &[SecurityIssue]) -> (level: SecurityRiskLevel)
        ensures
            level == risk_level_of(issues_view(issues@)),
    {
        let mut critical = false;
        let mut high = false;
        let mut medium = false;
        let mut i: usize = 0;
        while i < issues.len()
            invariant
                i <= issues@.len(),
                critical == has_severity(
                    issues_view(issues@.take(i as int)),
                    SecuritySeverity::Critical,
                ),
                high == has_severity(issues_view(issues@.take(i as int)), SecuritySeverity::High),
                medium == has_severity(
                    issues_view(issues@.take(i as int)),
                    SecuritySeverity::Medium,
                ),
            decreases issues@.len() - i,
        {
            proof {
                lemma_has_severity_step(issues@, i as int, SecuritySeverity::Critical);
                lemma_has_severity_step(issues@, i as int, SecuritySeverity::High);
                lemma_has_severity_step(issues@, i as int, SecuritySeverity::Medium);
            }
            match issues[i].severity {
                SecuritySeverity::Critical => {
                    critical = true;
                },
                SecuritySeverity::High => {
                    high = true;
                },
                SecuritySeverity::Medium => {
                    medium = true;
                },
                SecuritySeverity::Low => {},
            }
            i += 1;
        }
        assert(issues@.take(i as int) =~= issues@);
        if critical {
            SecurityRiskLevel::Critical
        } else if high {
            SecurityRiskLevel::High
        } else if medium {
            SecurityRiskLevel::Medium
        } else if issues.len() > 0 {
            SecurityRiskLevel::Low
        } else {
            SecurityRiskLevel::NoRisk
        }
    }
}

/// Looking at one more issue: a severity occurs among the first `i + 1` issues
/// exactly if it occurs among the first `i` or is that of issue `i`.
proof fn lemma_has_severity_step(issues: Seq<SecurityIssue>, i: int, severity: SecuritySeverity)
    requires
        0 <= i < issues.len(),
    ensures
        has_severity(issues_view(issues.take(i + 1)), severity) == (has_severity(
            issues_view(issues.take(i)),
            severity,
        ) || issues[i].severity == severity),
{
    let before = issues_view(issues.take(i));
    let after = issues_view(issues.take(i + 1));
    assert(after =~= before.push(issues[i]@));
    if has_severity(before, severity) {
        let j = choose|j: int| 0 <= j < before.len() && (#[trigger] before[j]).severity == severity;
        assert(after[j].severity == severity);
    }
    if issues[i].severity == severity {
        assert(after[i].severity == severity);
    }
    if has_severity(after, severity) {
        let j = choose|j: int| 0 <= j < after.len() && (#[trigger] after[j]).severity == severity;
        if j < i {
            assert(before[j].severity == severity);
        }
    }
}

impl SecurityCheckResultView {
    /// The one-line description of the result.
    pub open spec fn summary(self) -> Seq<char> {
        "Security check "@ + (if self.is_secure {
            "PASSED"@
        } else {
            "FAILED"@
        }) + ": "@ + decimal_text(self.issues.len()) + " issues, "@ + decimal_text(
            self.warnings.len(),
        ) + " warnings, risk level: "@ + risk_level_text(self.risk_level)
    }

    /// The risk level is medium or graver.
    pub open spec fn has_security_risk(self) -> bool {
        self.risk_level == SecurityRiskLevel::Medium || self.risk_level == SecurityRiskLevel::High
            || self.risk_level == SecurityRiskLevel::Critical
    }
}

/// The issue is critical.
pub open spec fn is_critical(issue: SecurityIssue) -> bool {
    issue.severity == SecuritySeverity::Critical
}

/// The issue is of high severity or graver.
pub open spec fn is_high_or_critical(issue: SecurityIssue) -> bool {
    issue.severity == SecuritySeverity::High || issue.severity == SecuritySeverity::Critical
}

/// The issues that a list of references points to.
pub open spec fn referenced_issues(refs: Seq<&SecurityIssue>) -> Seq<SecurityIssue> {
    refs.map_values(|issue: &SecurityIssue| *issue)
}

impl SecurityCheckResult {
    /// A one-line description of the result.
    pub fn summary(&self) -> (text: String)
        ensures
            text@ == self@.summary(),
    {
        let mut text = String::from_str("Security check ");
        text.append(
            if self.is_secure {
                "PASSED"
            } else {
                "FAILED"
            },
        );
        text.append(": ");
        text.append(decimal_string(self.issues.len()).as_str());
        text.append(" issues, ");
        text.append(decimal_string(self.warnings.len()).as_str());
        text.append(" warnings, risk level: ");
        text.append(risk_level_str(self.risk_level));
        text
    }

    /// Whether the result calls for attention: the risk level is medium or graver.
    pub fn has_security_risk(&self) -> (risk: bool)
        ensures
            risk == self@.has_security_risk(),
    {
        match self.risk_level {
            SecurityRiskLevel::Medium => true,
            SecurityRiskLevel::High => true,
            SecurityRiskLevel::Critical => true,
            _ => false,
        }
    }

    /// The critical issues, in the order in which they were recorded.
    pub fn get_critical_issues(&self) -> (critical: Vec<&SecurityIssue>)
        ensures
            referenced_issues(critical@) == self.issues@.filter(
                |issue: SecurityIssue| is_critical(issue),
            ),
    {
        let ghost pred = |issue: SecurityIssue| is_critical(issue);
        let mut critical: Vec<&SecurityIssue> = Vec::new();
        let mut i: usize = 0;
        proof {
            reveal(Seq::filter);
            assert(referenced_issues(critical@) =~= self.issues@.take(0).filter(pred));
        }
        while i < self.issues.len()
            invariant
                i <= self.issues@.len(),
                pred == |issue: SecurityIssue| is_critical(issue),
                referenced_issues(critical@) == self.issues@.take(i as int).filter(pred),
            decreases self.issues@.len() - i,
        {
            proof {
                reveal(Seq::filter);
                assert(self.issues@.take(i + 1).drop_last() =~= self.issues@.take(i as int));
            }
            let ghost before = referenced_issues(critical@);
            match self.issues[i].severity {
                SecuritySeverity::Critical => {
                    critical.push(&self.issues[i]);
                    assert(referenced_issues(critical@) =~= before.push(self.issues@[i as int]));
                },
                _ => {},
            }
            i += 1;
        }
        assert(self.issues@.take(i as int) =~= self.issues@);
        critical
    }

    /// The issues of high severity or graver, in the order in which they were
    /// recorded.
    pub fn get_high_severity_issues(&self) -> (grave: Vec<&SecurityIssue>)
        ensures
            referenced_issues(grave@) == self.issues@.filter(
                |issue: SecurityIssue| is_high_or_critical(issue),
            ),
    {
        let ghost pred = |issue: SecurityIssue| is_high_or_critical(issue);
        let mut grave: Vec<&SecurityIssue> = Vec::new();
        let mut i: usize = 0;
        proof {
            reveal(Seq::filter);
            assert(referenced_issues(grave@) =~= self.issues@.take(0).filter(pred));
        }
        while i < self.issues.len()
            invariant
                i <= self.issues@.len(),
                pred == |issue: SecurityIssue| is_high_or_critical(issue),
                referenced_issues(grave@) == self.issues@.take(i as int).filter(pred),
            decreases self.issues@.len() - i,
        {
            proof {
                reveal(Seq::filter);
                assert(self.issues@.take(i + 1).drop_last() =~= self.issues@.take(i as int));
            }
            let ghost before = referenced_issues(grave@);
            match self.issues[i].severity {
                SecuritySeverity::High | SecuritySeverity::Critical => {
                    grave.push(&self.issues[i]);
                    assert(referenced_issues(grave@) =~= before.push(self.issues@[i as int]));
                },
                _ => {},
            }
            i += 1;
        }
        assert(self.issues@.take(i as int) =~= self.issues@);
        grave
    }
}

} // verus!
