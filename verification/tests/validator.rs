use std::collections::HashMap;

use module_registry::clock::{current_unix_seconds, unix_seconds_of};
use module_registry::constants::SIGNATURE_EXPIRY_SECONDS;
use module_registry::{
    CodeReviewStatus, ModuleMetadata, ModulePermissions, ModuleSignature, SandboxConfig,
    SecurityCheckResult, SecurityGate, SecurityIssue, SecurityRiskLevel, SecuritySeverity,
    SecurityValidator, SecurityWarning, SupplyChainInfo,
};

const NOW: u64 = 2_000_000_000;

fn signature_at(timestamp: u64) -> ModuleSignature {
    ModuleSignature {
        code_hash: "abc123".to_string(),
        signature: "c2lnbmF0dXJl".to_string(),
        public_key: "cHVibGljLWtleQ==".to_string(),
        timestamp,
        algorithm: "SHA256-RSA".to_string(),
    }
}

fn supply_chain_at(build_timestamp: u64) -> SupplyChainInfo {
    let mut dependencies = HashMap::new();
    dependencies.insert("serde".to_string(), "1.0".to_string());
    SupplyChainInfo {
        source_url: "https://example.org/repo.git".to_string(),
        commit_hash: "0123abcd".to_string(),
        build_timestamp,
        dependencies,
        build_environment: "linux-x86_64".to_string(),
        verifier_signature: None,
    }
}

fn approved() -> CodeReviewStatus {
    CodeReviewStatus::Approved { reviewer: "alice".to_string(), timestamp: NOW - 10 }
}

fn plain(name: &str) -> ModuleMetadata {
    ModuleMetadata::new(
        name.to_string(),
        "plugin".to_string(),
        "factory".to_string(),
        "tests::validator".to_string(),
        "Module".to_string(),
    )
}

fn vetted(name: &str) -> ModuleMetadata {
    let mut metadata = ModuleMetadata::secure(
        name.to_string(),
        "plugin".to_string(),
        "factory".to_string(),
        "tests::validator".to_string(),
        "Module".to_string(),
        Some(signature_at(NOW - 60)),
        ModulePermissions::default(),
        Some(supply_chain_at(NOW - 120)),
    );
    metadata.review_status = approved();
    metadata
}

fn issue(severity: SecuritySeverity, component: &str) -> SecurityIssue {
    SecurityIssue {
        severity,
        message: format!("{} failed", component),
        component: component.to_string(),
    }
}

#[test]
fn signature_missing_is_not_verified() {
    let metadata = plain("unsigned");
    assert!(!SecurityValidator::verify_signature(&metadata));
    assert!(!SecurityValidator::verify_signature_at(&metadata, NOW));
    assert!(!SecurityValidator::verify_signature_at(&metadata, 0));
}

#[test]
fn signature_older_than_a_year_by_one_second_is_rejected() {
    let mut metadata = vetted("old");
    metadata.signature = Some(signature_at(NOW - SIGNATURE_EXPIRY_SECONDS - 1));
    assert!(!SecurityValidator::verify_signature_at(&metadata, NOW));

    let now = current_unix_seconds();
    metadata.signature = Some(signature_at(now - SIGNATURE_EXPIRY_SECONDS - 1));
    assert!(!SecurityValidator::verify_signature(&metadata));
}

#[test]
fn signature_exactly_a_year_old_is_still_fresh() {
    let mut metadata = vetted("edge");
    metadata.signature = Some(signature_at(NOW - SIGNATURE_EXPIRY_SECONDS));
    assert!(SecurityValidator::verify_signature_at(&metadata, NOW));
}

#[test]
fn signature_expiry_is_one_year_of_seconds() {
    assert_eq!(SIGNATURE_EXPIRY_SECONDS, 365 * 24 * 60 * 60);
    assert_eq!(SIGNATURE_EXPIRY_SECONDS, 31_536_000);
}

#[test]
fn signature_with_md5_is_rejected() {
    let mut signature = signature_at(NOW);
    signature.algorithm = "MD5".to_string();
    let mut metadata = vetted("md5");
    metadata.signature = Some(signature);
    assert!(!SecurityValidator::verify_signature_at(&metadata, NOW));
    assert!(!SecurityValidator::verify_signature(&metadata));
}

#[test]
fn signature_algorithm_is_compared_exactly() {
    for algorithm in ["sha256-rsa", "SHA256-RSA ", "SHA256", ""] {
        let mut signature = signature_at(NOW);
        signature.algorithm = algorithm.to_string();
        let mut metadata = vetted("algo");
        metadata.signature = Some(signature);
        assert!(!SecurityValidator::verify_signature_at(&metadata, NOW), "{:?}", algorithm);
    }
}

#[test]
fn signature_made_now_is_verified() {
    let mut metadata = plain("fresh");
    metadata.signature = Some(signature_at(NOW));
    assert!(SecurityValidator::verify_signature_at(&metadata, NOW));

    let now = current_unix_seconds();
    metadata.signature = Some(signature_at(now));
    assert!(SecurityValidator::verify_signature(&metadata));
}

#[test]
fn signature_dated_after_now_is_not_expired() {
    let mut metadata = plain("early");
    metadata.signature = Some(signature_at(NOW + 500));
    assert!(SecurityValidator::verify_signature_at(&metadata, NOW));
    metadata.signature = Some(signature_at(u64::MAX));
    assert!(SecurityValidator::verify_signature_at(&metadata, 0));
}

#[test]
fn signature_with_empty_signature_or_key_is_rejected() {
    let mut no_signature = signature_at(NOW);
    no_signature.signature = String::new();
    let mut metadata = plain("hollow");
    metadata.signature = Some(no_signature);
    assert!(!SecurityValidator::verify_signature_at(&metadata, NOW));

    let mut no_key = signature_at(NOW);
    no_key.public_key = String::new();
    metadata.signature = Some(no_key);
    assert!(!SecurityValidator::verify_signature_at(&metadata, NOW));
}

#[test]
fn signature_check_ignores_the_code_hash() {
    let mut signature = signature_at(NOW);
    signature.code_hash = String::new();
    let mut metadata = plain("nohash");
    metadata.signature = Some(signature);
    assert!(SecurityValidator::verify_signature_at(&metadata, NOW));
}

#[test]
fn permission_keys_map_to_their_flags() {
    let keys = ["filesystem_access", "network_access", "process_spawn", "env_access", "system_access"];
    for (granted_index, _) in keys.iter().enumerate() {
        let mut metadata = plain("perm");
        metadata.permissions = ModulePermissions {
            filesystem_access: granted_index == 0,
            network_access: granted_index == 1,
            process_spawn: granted_index == 2,
            env_access: granted_index == 3,
            system_access: granted_index == 4,
            ..ModulePermissions::default()
        };
        for (index, key) in keys.iter().enumerate() {
            assert_eq!(
                SecurityValidator::check_permissions(&metadata, key),
                index == granted_index,
                "{} with flag {} set",
                key,
                keys[granted_index]
            );
        }
    }
}

#[test]
fn unknown_permission_key_is_denied() {
    let mut metadata = plain("perm");
    metadata.permissions = ModulePermissions {
        filesystem_access: true,
        network_access: true,
        process_spawn: true,
        env_access: true,
        system_access: true,
        ..ModulePermissions::default()
    };
    for key in ["", "root", "Filesystem_access", "filesystem_access ", "memory_limit_mb"] {
        assert!(!SecurityValidator::check_permissions(&metadata, key), "{:?}", key);
    }
}

#[test]
fn only_the_approved_status_counts_as_approved() {
    let mut metadata = plain("status");
    assert!(!SecurityValidator::is_approved(&metadata));
    assert!(!metadata.is_approved());

    metadata.review_status = CodeReviewStatus::InProgress;
    assert!(!SecurityValidator::is_approved(&metadata));

    metadata.review_status = CodeReviewStatus::Rejected {
        reviewer: "bob".to_string(),
        reason: "unsafe".to_string(),
        timestamp: NOW,
    };
    assert!(!SecurityValidator::is_approved(&metadata));
    assert!(!metadata.is_approved());

    metadata.review_status = approved();
    assert!(SecurityValidator::is_approved(&metadata));
    assert!(metadata.is_approved());
}

#[test]
fn supply_chain_missing_is_not_verified() {
    let metadata = plain("nochain");
    assert!(!SecurityValidator::verify_supply_chain(&metadata));
    assert!(!SecurityValidator::verify_supply_chain_at(&metadata, NOW));
}

#[test]
fn supply_chain_needs_source_and_commit() {
    let mut metadata = plain("chain");

    let mut no_source = supply_chain_at(NOW - 1);
    no_source.source_url = String::new();
    metadata.supply_chain = Some(no_source);
    assert!(!SecurityValidator::verify_supply_chain_at(&metadata, NOW));

    let mut no_commit = supply_chain_at(NOW - 1);
    no_commit.commit_hash = String::new();
    metadata.supply_chain = Some(no_commit);
    assert!(!SecurityValidator::verify_supply_chain_at(&metadata, NOW));

    metadata.supply_chain = Some(supply_chain_at(NOW - 1));
    assert!(SecurityValidator::verify_supply_chain_at(&metadata, NOW));
}

#[test]
fn supply_chain_built_in_the_future_is_rejected() {
    let mut metadata = plain("chain");
    metadata.supply_chain = Some(supply_chain_at(NOW + 1));
    assert!(!SecurityValidator::verify_supply_chain_at(&metadata, NOW));

    metadata.supply_chain = Some(supply_chain_at(NOW));
    assert!(SecurityValidator::verify_supply_chain_at(&metadata, NOW));

    metadata.supply_chain = Some(supply_chain_at(u64::MAX));
    assert!(!SecurityValidator::verify_supply_chain(&metadata));

    metadata.supply_chain = Some(supply_chain_at(0));
    assert!(SecurityValidator::verify_supply_chain(&metadata));
}

#[test]
fn supply_chain_check_ignores_the_verifier_signature() {
    let mut chain = supply_chain_at(NOW - 1);
    chain.verifier_signature = Some(String::new());
    let mut metadata = plain("chain");
    metadata.supply_chain = Some(chain);
    assert!(SecurityValidator::verify_supply_chain_at(&metadata, NOW));
}

#[test]
fn unvetted_module_has_three_issues_and_high_risk() {
    let metadata = plain("unvetted");
    let result = SecurityValidator::comprehensive_check_at(&metadata, NOW);

    assert_eq!(result.issues.len(), 3);
    assert_eq!(result.issues[0].severity, SecuritySeverity::High);
    assert_eq!(result.issues[0].message, "Module signature verification failed");
    assert_eq!(result.issues[0].component, "signature");
    assert_eq!(result.issues[1].severity, SecuritySeverity::Medium);
    assert_eq!(result.issues[1].message, "Module not approved by code review");
    assert_eq!(result.issues[1].component, "review");
    assert_eq!(result.issues[2].severity, SecuritySeverity::Medium);
    assert_eq!(result.issues[2].message, "Supply chain verification failed");
    assert_eq!(result.issues[2].component, "supply_chain");
    assert!(!result.is_secure);
    assert_eq!(result.risk_level, SecurityRiskLevel::High);
    assert!(result.warnings.is_empty());
    assert_eq!(result.check_timestamp, NOW);
}

#[test]
fn unvetted_module_checked_by_the_clock() {
    let before = current_unix_seconds();
    let result = SecurityValidator::comprehensive_check(&plain("unvetted"));
    let after = current_unix_seconds();

    assert_eq!(result.issues.len(), 3);
    assert!(!result.is_secure);
    assert_eq!(result.risk_level, SecurityRiskLevel::High);
    assert!(result.warnings.is_empty());
    assert!(before <= result.check_timestamp && result.check_timestamp <= after);
}

#[test]
fn system_access_without_sandbox_is_always_an_issue() {
    let mut unvetted = plain("raw");
    unvetted.permissions.system_access = true;
    unvetted.sandbox_config.enabled = false;
    let result = SecurityValidator::comprehensive_check_at(&unvetted, NOW);
    assert_eq!(result.issues.len(), 4);
    let last = &result.issues[3];
    assert_eq!(last.severity, SecuritySeverity::High);
    assert_eq!(last.message, "System access granted without sandboxing");
    assert_eq!(last.component, "permissions");

    let mut good = vetted("good");
    good.permissions.system_access = true;
    good.sandbox_config.enabled = false;
    let result = SecurityValidator::comprehensive_check_at(&good, NOW);
    assert_eq!(result.issues.len(), 1);
    assert_eq!(result.issues[0].message, "System access granted without sandboxing");
    assert_eq!(result.issues[0].severity, SecuritySeverity::High);
    assert!(!result.is_secure);
    assert_eq!(result.risk_level, SecurityRiskLevel::High);

    let by_clock = SecurityValidator::comprehensive_check(&unvetted);
    assert_eq!(
        by_clock.issues.last().unwrap().message,
        "System access granted without sandboxing"
    );
}

#[test]
fn system_access_inside_a_sandbox_is_no_issue() {
    let mut metadata = vetted("boxed");
    metadata.permissions.system_access = true;
    let result = SecurityValidator::comprehensive_check_at(&metadata, NOW);
    assert!(result.issues.is_empty());

    let mut open_but_harmless = vetted("open");
    open_but_harmless.sandbox_config.enabled = false;
    let result = SecurityValidator::comprehensive_check_at(&open_but_harmless, NOW);
    assert!(result.issues.is_empty());
}

#[test]
fn vetted_module_is_secure() {
    let result = SecurityValidator::comprehensive_check_at(&vetted("good"), NOW);
    assert!(result.is_secure);
    assert!(result.issues.is_empty());
    assert!(result.warnings.is_empty());
    assert_eq!(result.risk_level, SecurityRiskLevel::NoRisk);
    assert!(!result.has_security_risk());
    assert_eq!(
        result.summary(),
        "Security check PASSED: 0 issues, 0 warnings, risk level: None"
    );
}

#[test]
fn missing_approval_alone_is_medium_risk() {
    let mut metadata = vetted("waiting");
    metadata.review_status = CodeReviewStatus::Pending;
    let result = SecurityValidator::comprehensive_check_at(&metadata, NOW);
    assert_eq!(result.issues.len(), 1);
    assert_eq!(result.issues[0].component, "review");
    assert_eq!(result.risk_level, SecurityRiskLevel::Medium);
    assert!(result.has_security_risk());
    assert_eq!(
        result.summary(),
        "Security check FAILED: 1 issues, 0 warnings, risk level: Medium"
    );
}

#[test]
fn summary_of_a_failed_check() {
    let result = SecurityValidator::comprehensive_check_at(&plain("unvetted"), NOW);
    assert_eq!(
        result.summary(),
        "Security check FAILED: 3 issues, 0 warnings, risk level: High"
    );
}

#[test]
fn summary_counts_issues_and_warnings_in_decimal() {
    let mut issues = Vec::new();
    for _ in 0..12 {
        issues.push(issue(SecuritySeverity::Low, "lint"));
    }
    let result = SecurityCheckResult {
        is_secure: false,
        risk_level: SecurityRiskLevel::Critical,
        issues,
        warnings: vec![SecurityWarning {
            message: "could not check".to_string(),
            component: "lint".to_string(),
        }],
        check_timestamp: NOW,
    };
    assert_eq!(
        result.summary(),
        "Security check FAILED: 12 issues, 1 warnings, risk level: Critical"
    );
}

#[test]
fn risk_level_is_the_gravest_severity() {
    assert_eq!(SecurityValidator::calculate_risk_level(&[]), SecurityRiskLevel::NoRisk);
    assert_eq!(
        SecurityValidator::calculate_risk_level(&[issue(SecuritySeverity::Low, "a")]),
        SecurityRiskLevel::Low
    );
    assert_eq!(
        SecurityValidator::calculate_risk_level(&[
            issue(SecuritySeverity::Low, "a"),
            issue(SecuritySeverity::Medium, "b"),
            issue(SecuritySeverity::Low, "c"),
        ]),
        SecurityRiskLevel::Medium
    );
    assert_eq!(
        SecurityValidator::calculate_risk_level(&[
            issue(SecuritySeverity::High, "a"),
            issue(SecuritySeverity::Medium, "b"),
        ]),
        SecurityRiskLevel::High
    );
    assert_eq!(
        SecurityValidator::calculate_risk_level(&[
            issue(SecuritySeverity::Medium, "a"),
            issue(SecuritySeverity::Critical, "b"),
            issue(SecuritySeverity::High, "c"),
        ]),
        SecurityRiskLevel::Critical
    );
}

#[test]
fn security_risk_starts_at_medium() {
    let levels = [
        (SecurityRiskLevel::NoRisk, false),
        (SecurityRiskLevel::Low, false),
        (SecurityRiskLevel::Medium, true),
        (SecurityRiskLevel::High, true),
        (SecurityRiskLevel::Critical, true),
    ];
    for (risk_level, expected) in levels {
        let result = SecurityCheckResult {
            is_secure: false,
            risk_level,
            issues: Vec::new(),
            warnings: Vec::new(),
            check_timestamp: 0,
        };
        assert_eq!(result.has_security_risk(), expected, "{:?}", risk_level);
    }
}

#[test]
fn issues_are_filtered_by_severity_in_order() {
    let result = SecurityCheckResult {
        is_secure: false,
        risk_level: SecurityRiskLevel::Critical,
        issues: vec![
            issue(SecuritySeverity::Critical, "first"),
            issue(SecuritySeverity::Low, "second"),
            issue(SecuritySeverity::High, "third"),
            issue(SecuritySeverity::Medium, "fourth"),
            issue(SecuritySeverity::Critical, "fifth"),
        ],
        warnings: Vec::new(),
        check_timestamp: 0,
    };

    let critical: Vec<&str> =
        result.get_critical_issues().iter().map(|i| i.component.as_str()).collect();
    assert_eq!(critical, vec!["first", "fifth"]);

    let grave: Vec<&str> =
        result.get_high_severity_issues().iter().map(|i| i.component.as_str()).collect();
    assert_eq!(grave, vec!["first", "third", "fifth"]);
}

#[test]
fn no_rule_of_the_validator_is_critical() {
    let mut metadata = plain("worst");
    metadata.permissions.system_access = true;
    metadata.sandbox_config.enabled = false;
    let result = SecurityValidator::comprehensive_check_at(&metadata, NOW);
    assert!(result.get_critical_issues().is_empty());
    assert_eq!(result.get_high_severity_issues().len(), 2);
}

#[test]
fn gates_fail_in_order() {
    let mut metadata = plain("gated");
    assert_eq!(
        SecurityValidator::first_failed_gate_at(&metadata, NOW),
        Some(SecurityGate::Signature)
    );
    metadata.signature = Some(signature_at(NOW));
    assert_eq!(
        SecurityValidator::first_failed_gate_at(&metadata, NOW),
        Some(SecurityGate::Approval)
    );
    metadata.review_status = approved();
    assert_eq!(
        SecurityValidator::first_failed_gate_at(&metadata, NOW),
        Some(SecurityGate::SupplyChain)
    );
    metadata.supply_chain = Some(supply_chain_at(NOW));
    assert_eq!(SecurityValidator::first_failed_gate_at(&metadata, NOW), None);

    metadata.signature = None;
    assert_eq!(
        SecurityValidator::first_failed_gate_at(&metadata, NOW),
        Some(SecurityGate::Signature)
    );
}

#[test]
fn check_result_clone_keeps_every_field() {
    let result = SecurityValidator::comprehensive_check_at(&plain("unvetted"), NOW);
    let copy = result.clone();
    assert_eq!(copy.is_secure, result.is_secure);
    assert_eq!(copy.risk_level, result.risk_level);
    assert_eq!(copy.check_timestamp, result.check_timestamp);
    assert_eq!(copy.issues.len(), result.issues.len());
    for (a, b) in copy.issues.iter().zip(result.issues.iter()) {
        assert_eq!(a.severity, b.severity);
        assert_eq!(a.message, b.message);
        assert_eq!(a.component, b.component);
    }
    assert_eq!(copy.warnings.len(), 0);
}

#[test]
fn the_clock_reads_a_present_day_time() {
    let first = current_unix_seconds();
    let second = current_unix_seconds();
    assert!(first > 1_600_000_000);
    assert!(second >= first);
}

#[test]
fn sandbox_default_of_the_validator_inputs() {
    let sandbox = SandboxConfig::default();
    assert!(sandbox.enabled);
    let metadata = plain("defaults");
    assert!(metadata.sandbox_config.enabled);
    assert!(!metadata.permissions.system_access);
}

#[test]
fn a_clock_before_the_epoch_reads_as_zero() {
    assert_eq!(unix_seconds_of(None), 0);
    assert_eq!(unix_seconds_of(Some(0)), 0);
    assert_eq!(unix_seconds_of(Some(1_700_000_000)), 1_700_000_000);
    assert_eq!(unix_seconds_of(Some(u64::MAX)), u64::MAX);
}
