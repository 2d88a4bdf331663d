//! What holds of the registry and of the validator whatever the inputs.
//!
//! Each law is stated over the models that the contracts of the operations
//! use: the registry as a map from names to entries, and metadata by its view.

use vstd::prelude::*;

use crate::constants::{DEFAULT_SIGNATURE_ALGORITHM, SIGNATURE_EXPIRY_SECONDS};
use crate::error::{fails_with, RegistryError, RegistryErrorView};
use crate::registry::{
    is_audit_at, registration_metadata, registrations_model, secure_creation_outcome,
    with_module, with_review_status, RegistryEntryView,
};
use crate::security::{
    check_result_at, first_failed_gate, issues_at, review_issue, signature_issue,
    signature_valid_at, supply_chain_issue, supply_chain_valid_at, unsandboxed_system_access,
    unsandboxed_system_access_issue, SecurityCheckResult, SecurityGate, SecurityRiskLevel,
    SecuritySeverity,
};
use crate::types::{
    CodeReviewStatusView, ModuleMetadataView, ModuleRegistration, SecurityReportView,
};

verus! {

/// Registering two modules under different names leaves both registered,
/// each with what was registered for it. Where neither name was registered
/// before, the count grows by two; in a registry that was empty it is two.
pub proof fn law_register_distinct_names<F>(
    modules: Map<Seq<char>, RegistryEntryView<F>>,
    first: ModuleMetadataView,
    first_factory: F,
    second: ModuleMetadataView,
    second_factory: F,
)
    requires
        modules.dom().finite(),
        first.name != second.name,
    ensures
        ({
            let after = with_module(
                with_module(modules, first, first_factory),
                second,
                second_factory,
            );
            &&& after.contains_key(first.name)
            &&& after.contains_key(second.name)
            &&& after[first.name] == RegistryEntryView { metadata: first, factory: first_factory }
            &&& after[second.name] == RegistryEntryView {
                metadata: second,
                factory: second_factory,
            }
            &&& !modules.contains_key(first.name) && !modules.contains_key(second.name)
                ==> after.len() == modules.len() + 2
            &&& modules.len() == 0 ==> after.len() == 2
        }),
{
    let one = with_module(modules, first, first_factory);
    let after = with_module(one, second, second_factory);
    assert(one.dom() =~= modules.dom().insert(first.name));
    assert(after.dom() =~= one.dom().insert(second.name));
    if modules.len() == 0 {
        assert(modules.dom() =~= Set::<Seq<char>>::empty());
    }
}

/// Registering under a name that is already registered leaves the names and
/// the count as they were, replaces what was registered under that name
/// entirely, and leaves every other module as it was.
pub proof fn law_register_again<F>(
    modules: Map<Seq<char>, RegistryEntryView<F>>,
    metadata: ModuleMetadataView,
    factory: F,
)
    requires
        modules.dom().finite(),
        modules.contains_key(metadata.name),
    ensures
        ({
            let after = with_module(modules, metadata, factory);
            &&& after.dom() == modules.dom()
            &&& after.len() == modules.len()
            &&& after[metadata.name] == RegistryEntryView { metadata, factory }
            &&& forall|other: Seq<char>|
                other != metadata.name && modules.contains_key(other) ==> #[trigger] after[other]
                    == modules[other]
        }),
{
    let after = with_module(modules, metadata, factory);
    assert(after.dom() =~= modules.dom());
}

/// A registry that was cleared holds nothing: its count is zero and no name is
/// registered in it, so no module can be built from it.
pub proof fn law_cleared<F>(name: Seq<char>)
    ensures
        Map::<Seq<char>, RegistryEntryView<F>>::empty().len() == 0,
        !Map::<Seq<char>, RegistryEntryView<F>>::empty().contains_key(name),
{
}

/// Entering records with pairwise different names, one after the other,
/// registers every one of them: the count is the number of records, and no
/// record is lost.
pub proof fn law_registrations_all_kept<F>(records: Seq<ModuleRegistration<F>>)
    requires
        forall|i: int, j: int|
            0 <= i < j < records.len() ==> (#[trigger] records[i]).name@ != (
            #[trigger] records[j]).name@,
    ensures
        registrations_model(records).dom().finite(),
        registrations_model(records).len() == records.len(),
        forall|i: int|
            0 <= i < records.len() ==> registrations_model(records).contains_key(
                (#[trigger] records[i]).name@,
            ) && registrations_model(records)[records[i].name@] == (RegistryEntryView {
                metadata: registration_metadata(records[i]),
                factory: records[i].factory,
            }),
        forall|name: Seq<char>| #[trigger]
            registrations_model(records).contains_key(name) ==> exists|i: int|
                0 <= i < records.len() && (#[trigger] records[i]).name@ == name,
    decreases records.len(),
{
    if records.len() > 0 {
        let earlier = records.drop_last();
        let last = records.last();
        assert forall|i: int, j: int| 0 <= i < j < earlier.len() implies (
        #[trigger] earlier[i]).name@ != (#[trigger] earlier[j]).name@ by {
            assert(earlier[i] == records[i]);
            assert(earlier[j] == records[j]);
        }
        law_registrations_all_kept(earlier);
        let before = registrations_model(earlier);
        let after = registrations_model(records);
        assert(after.dom() =~= before.dom().insert(last.name@));
        if before.contains_key(last.name@) {
            let i = choose|i: int|
                0 <= i < earlier.len() && (#[trigger] earlier[i]).name@ == last.name@;
            assert(earlier[i] == records[i]);
            assert(records[records.len() - 1] == last);
        }
        assert forall|i: int| 0 <= i < records.len() implies after.contains_key(
            (#[trigger] records[i]).name@,
        ) && after[records[i].name@] == (RegistryEntryView {
            metadata: registration_metadata(records[i]),
            factory: records[i].factory,
        }) by {
            if i < earlier.len() {
                assert(earlier[i] == records[i]);
                assert(records[records.len() - 1] == last);
            }
        }
        assert forall|name: Seq<char>| #[trigger] after.contains_key(name) implies exists|i: int|
            0 <= i < records.len() && (#[trigger] records[i]).name@ == name by {
            if name == last.name@ {
                assert(records[records.len() - 1].name@ == name);
            } else {
                let i = choose|i: int|
                    0 <= i < earlier.len() && (#[trigger] earlier[i]).name@ == name;
                assert(records[i].name@ == name);
            }
        }
    }
}

/// When a signature passes and when it does not. Without a signature the
/// check fails. It fails where more than a year lies between the signature
/// and `now`, and where the algorithm is not the accepted one, "MD5" among
/// them. It passes for a signature made at `now` with the accepted algorithm
/// whose signature and public key are not empty.
pub proof fn law_signature_validity(metadata: ModuleMetadataView, now: u64)
    ensures
        metadata.signature is None ==> !signature_valid_at(metadata, now),
        metadata.signature matches Some(signature) ==> {
            &&& now - signature.timestamp > SIGNATURE_EXPIRY_SECONDS ==> !signature_valid_at(
                metadata,
                now,
            )
            &&& signature.algorithm != DEFAULT_SIGNATURE_ALGORITHM@ ==> !signature_valid_at(
                metadata,
                now,
            )
            &&& signature.algorithm == "MD5"@ ==> !signature_valid_at(metadata, now)
            &&& signature.timestamp == now && signature.algorithm == "SHA256-RSA"@
                && signature.signature.len() > 0 && signature.public_key.len() > 0
                ==> signature_valid_at(metadata, now)
        },
{
    reveal_strlit("MD5");
    reveal_strlit("SHA256-RSA");
    assert("MD5"@.len() != "SHA256-RSA"@.len());
}

/// A module with no signature, pending review and no provenance, checked at
/// any time, has exactly the three issues of the three failed checks (high,
/// medium, medium), is not secure, and is at high risk. The law leaves out
/// modules with system access and no sandbox: they have a fourth issue.
pub proof fn law_unvetted_module(metadata: ModuleMetadataView, now: u64)
    requires
        metadata.signature is None,
        metadata.review_status is Pending,
        metadata.supply_chain is None,
        !unsandboxed_system_access(metadata),
    ensures
        check_result_at(metadata, now).issues == seq![
            signature_issue(),
            review_issue(),
            supply_chain_issue(),
        ],
        check_result_at(metadata, now).issues.len() == 3,
        check_result_at(metadata, now).issues[0].severity == SecuritySeverity::High,
        check_result_at(metadata, now).issues[1].severity == SecuritySeverity::Medium,
        check_result_at(metadata, now).issues[2].severity == SecuritySeverity::Medium,
        !check_result_at(metadata, now).is_secure,
        check_result_at(metadata, now).risk_level == SecurityRiskLevel::High,
        check_result_at(metadata, now).warnings.len() == 0,
{
    let issues = issues_at(metadata, now);
    assert(issues =~= seq![signature_issue(), review_issue(), supply_chain_issue()]);
    assert(issues[0].severity == SecuritySeverity::High);
}

/// A module with system access and no sandbox, checked at any time, has the
/// issue "system access without sandboxing" as its last issue, whatever its
/// other fields are. It is not secure, and its risk is high or critical.
pub proof fn law_unsandboxed_system_access(metadata: ModuleMetadataView, now: u64)
    requires
        metadata.permissions.system_access,
        !metadata.sandbox_config.enabled,
    ensures
        check_result_at(metadata, now).issues.len() > 0,
        check_result_at(metadata, now).issues.last() == unsandboxed_system_access_issue(),
        check_result_at(metadata, now).issues.contains(unsandboxed_system_access_issue()),
        !check_result_at(metadata, now).is_secure,
        check_result_at(metadata, now).risk_level == SecurityRiskLevel::High || check_result_at(
            metadata,
            now,
        ).risk_level == SecurityRiskLevel::Critical,
{
    let issues = issues_at(metadata, now);
    let last = issues.len() - 1;
    assert(issues[last] == unsandboxed_system_access_issue());
    assert(issues[last].severity == SecuritySeverity::High);
}

/// The signature gate comes first: a module without a signature fails there
/// at any time, also where it is approved and its provenance passes, and a
/// secure creation reports exactly that.
pub proof fn law_signature_gate_first<F, I, E>(
    entry: RegistryEntryView<F>,
    name: Seq<char>,
    now: u64,
    result: Result<I, RegistryError<E>>,
) where F: Fn() -> Result<I, E>
    requires
        entry.metadata.signature is None,
        secure_creation_outcome(entry, name, now, result),
    ensures
        first_failed_gate(entry.metadata, now) == Some(SecurityGate::Signature),
        fails_with(result, RegistryErrorView::SignatureInvalid { name }),
{
}

/// A check is secure exactly if it found no issue, and it never has a
/// warning. Its risk level is `NoRisk` exactly if it is secure.
pub proof fn law_secure_means_no_issue(metadata: ModuleMetadataView, now: u64)
    ensures
        check_result_at(metadata, now).is_secure <==> check_result_at(metadata, now).issues.len()
            == 0,
        check_result_at(metadata, now).is_secure <==> check_result_at(metadata, now).risk_level
            == SecurityRiskLevel::NoRisk,
        check_result_at(metadata, now).is_secure <==> first_failed_gate(metadata, now) is None
            && !unsandboxed_system_access(metadata),
        check_result_at(metadata, now).warnings.len() == 0,
{
    let issues = issues_at(metadata, now);
    if issues.len() > 0 {
        assert(issues[0].severity == SecuritySeverity::High || issues[0].severity
            == SecuritySeverity::Medium);
    }
}

/// A module passes every gate exactly if its signature passes, it is
/// approved and its provenance passes. A module that is not approved fails at
/// the approval gate exactly if its signature passes, and at the provenance
/// gate a module fails only if it passed the two before.
pub proof fn law_gate_order(metadata: ModuleMetadataView, now: u64)
    ensures
        first_failed_gate(metadata, now) is None <==> signature_valid_at(metadata, now)
            && metadata.is_approved() && supply_chain_valid_at(metadata, now),
        first_failed_gate(metadata, now) == Some(SecurityGate::Signature) <==> !signature_valid_at(
            metadata,
            now,
        ),
        first_failed_gate(metadata, now) == Some(SecurityGate::Approval) <==> signature_valid_at(
            metadata,
            now,
        ) && !metadata.is_approved(),
        first_failed_gate(metadata, now) == Some(SecurityGate::SupplyChain) <==> signature_valid_at(
            metadata,
            now,
        ) && metadata.is_approved() && !supply_chain_valid_at(metadata, now),
{
}

/// The validator is stricter than the presence queries: a signature that
/// passes is present, and so is provenance that passes. The converse does not
/// hold, and a report records presence only.
pub proof fn law_validator_is_stricter(metadata: ModuleMetadataView, name: Seq<char>, now: u64)
    ensures
        signature_valid_at(metadata, now) ==> metadata.has_valid_signature(),
        supply_chain_valid_at(metadata, now) ==> metadata.has_supply_chain(),
        SecurityReportView::of(name, metadata).signature_verified
            == metadata.has_valid_signature(),
        SecurityReportView::of(name, metadata).has_signature == metadata.has_valid_signature(),
        SecurityReportView::of(name, metadata).supply_chain_verified
            == metadata.has_supply_chain(),
        SecurityReportView::of(name, metadata).has_supply_chain == metadata.has_supply_chain(),
        SecurityReportView::of(name, metadata).is_approved == metadata.is_approved(),
{
}

/// No rule of the validator records a low or a critical issue, so the risk
/// of a checked module is `NoRisk`, `Medium` or `High`. A check records at most
/// four issues.
pub proof fn law_risk_levels_reached(metadata: ModuleMetadataView, now: u64)
    ensures
        check_result_at(metadata, now).issues.len() <= 4,
        forall|i: int|
            0 <= i < check_result_at(metadata, now).issues.len() ==> (#[trigger] check_result_at(
                metadata,
                now,
            ).issues[i]).severity == SecuritySeverity::High || check_result_at(
                metadata,
                now,
            ).issues[i].severity == SecuritySeverity::Medium,
        check_result_at(metadata, now).risk_level == SecurityRiskLevel::NoRisk || check_result_at(
            metadata,
            now,
        ).risk_level == SecurityRiskLevel::Medium || check_result_at(metadata, now).risk_level
            == SecurityRiskLevel::High,
        check_result_at(metadata, now).risk_level == SecurityRiskLevel::High
            <==> !signature_valid_at(metadata, now) || unsandboxed_system_access(metadata),
{
    let issues = issues_at(metadata, now);
    if !signature_valid_at(metadata, now) {
        assert(issues[0].severity == SecuritySeverity::High);
    }
    if unsandboxed_system_access(metadata) {
        assert(issues[issues.len() - 1].severity == SecuritySeverity::High);
    }
    if issues.len() > 0 && signature_valid_at(metadata, now) && !unsandboxed_system_access(
        metadata,
    ) {
        assert(issues[0].severity == SecuritySeverity::Medium);
    }
}

/// An audit is computed from the stored metadata and the time alone: two
/// audits of the same modules as of the same time agree on every module.
pub proof fn law_audit_recomputed<F>(
    modules: Map<Seq<char>, RegistryEntryView<F>>,
    now: u64,
    first: Map<Seq<char>, SecurityCheckResult>,
    second: Map<Seq<char>, SecurityCheckResult>,
)
    requires
        is_audit_at(first, modules, now),
        is_audit_at(second, modules, now),
    ensures
        first.dom() == second.dom(),
        forall|name: Seq<char>| #[trigger]
            modules.contains_key(name) ==> first[name]@ == second[name]@,
{
}

/// Replacing the review status of a registered module keeps the names and
/// the count, keeps the module's name, factory and every other field of its
/// metadata, and leaves every other module as it was.
pub proof fn law_review_status_only<F>(
    modules: Map<Seq<char>, RegistryEntryView<F>>,
    name: Seq<char>,
    status: CodeReviewStatusView,
)
    requires
        modules.dom().finite(),
        modules.contains_key(name),
    ensures
        ({
            let after = with_review_status(modules, name, status);
            &&& after.dom() == modules.dom()
            &&& after.len() == modules.len()
            &&& after[name].factory == modules[name].factory
            &&& after[name].metadata.review_status == status
            &&& after[name].metadata == (ModuleMetadataView {
                review_status: status,
                ..modules[name].metadata
            })
            &&& forall|other: Seq<char>|
                other != name && modules.contains_key(other) ==> #[trigger] after[other]
                    == modules[other]
        }),
{
    assert(with_review_status(modules, name, status).dom() =~= modules.dom());
}

} // verus!
