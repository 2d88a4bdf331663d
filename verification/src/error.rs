//! The errors of the registry, each with the name of the module it is about.

use vstd::prelude::*;
use vstd::string::StringExecFns;

use crate::security::SecurityGate;

verus! {

/// Why the registry could not do what it was asked.
#[derive(Debug)]
pub enum RegistryError<E> {
    /// No module is registered under the name.
    NotFound { name: String },
    /// The module's factory failed; `source` is what it returned.
    ConstructionFailure { name: String, source: E },
    /// The instance is not of the type the caller expected.
    TypeMismatch { name: String },
    /// The module's signature did not pass.
    SignatureInvalid { name: String },
    /// The module is not approved by code review.
    NotApproved { name: String },
    /// The module's provenance did not pass.
    SupplyChainUnverified { name: String },
}

/// Model of a [`RegistryError`].
pub enum RegistryErrorView<E> {
    NotFound { name: Seq<char> },
    ConstructionFailure { name: Seq<char>, source: E },
    TypeMismatch { name: Seq<char> },
    SignatureInvalid { name: Seq<char> },
    NotApproved { name: Seq<char> },
    SupplyChainUnverified { name: Seq<char> },
}

impl<E> View for RegistryError<E> {
    type V = RegistryErrorView<E>;

    open spec fn view(&self) -> RegistryErrorView<E> {
        match self {
            RegistryError::NotFound { name } => RegistryErrorView::NotFound { name: name@ },
            RegistryError::ConstructionFailure { name, source } => {
                RegistryErrorView::ConstructionFailure { name: name@, source: *source }
            },
            RegistryError::TypeMismatch { name } => RegistryErrorView::TypeMismatch { name: name@ },
            RegistryError::SignatureInvalid { name } => RegistryErrorView::SignatureInvalid {
                name: name@,
            },
            RegistryError::NotApproved { name } => RegistryErrorView::NotApproved { name: name@ },
            RegistryError::SupplyChainUnverified { name } => {
                RegistryErrorView::SupplyChainUnverified { name: name@ }
            },
        }
    }
}

impl<E> RegistryErrorView<E> {
    /// The name of the module the error is about.
    pub open spec fn name(self) -> Seq<char> {
        match self {
            RegistryErrorView::NotFound { name } => name,
            RegistryErrorView::ConstructionFailure { name, .. } => name,
            RegistryErrorView::TypeMismatch { name } => name,
            RegistryErrorView::SignatureInvalid { name } => name,
            RegistryErrorView::NotApproved { name } => name,
            RegistryErrorView::SupplyChainUnverified { name } => name,
        }
    }

    /// What the message says before it names the module.
    pub open spec fn prefix(self) -> Seq<char> {
        match self {
            RegistryErrorView::NotFound { .. } => "Module not found: "@,
            RegistryErrorView::ConstructionFailure { .. } => "Failed to instantiate module: "@,
            RegistryErrorView::TypeMismatch { .. } => "Module type mismatch for: "@,
            RegistryErrorView::SignatureInvalid { .. } => "Module signature verification failed: "@,
            RegistryErrorView::NotApproved { .. } => "Module not approved: "@,
            RegistryErrorView::SupplyChainUnverified { .. } => {
                "Supply chain verification failed: "@
            },
        }
    }

    /// The message of the error: what went wrong, then the module's name.
    pub open spec fn message(self) -> Seq<char> {
        self.prefix() + self.name()
    }
}

impl<E> RegistryError<E> {
    /// The name of the module the error is about.
    pub fn module_name(&self) -> (name: &str)
        ensures
            name@ == self@.name(),
    {
        match self {
            RegistryError::NotFound { name } => name.as_str(),
            RegistryError::ConstructionFailure { name, .. } => name.as_str(),
            RegistryError::TypeMismatch { name } => name.as_str(),
            RegistryError::SignatureInvalid { name } => name.as_str(),
            RegistryError::NotApproved { name } => name.as_str(),
            RegistryError::SupplyChainUnverified { name } => name.as_str(),
        }
    }

    /// The message of the error.
    pub fn to_string(&self) -> (message: String)
        ensures
            message@ == self@.message(),
    {
        let prefix = match self {
            RegistryError::NotFound { .. } => "Module not found: ",
            RegistryError::ConstructionFailure { .. } => "Failed to instantiate module: ",
            RegistryError::TypeMismatch { .. } => "Module type mismatch for: ",
            RegistryError::SignatureInvalid { .. } => "Module signature verification failed: ",
            RegistryError::NotApproved { .. } => "Module not approved: ",
            RegistryError::SupplyChainUnverified { .. } => "Supply chain verification failed: ",
        };
        let mut message = String::from_str(prefix);
        message.append(self.module_name());
        message
    }
}

/// The result is the error `expected`.
pub open spec fn fails_with<T, E>(
    result: Result<T, RegistryError<E>>,
    expected: RegistryErrorView<E>,
) -> bool {
    result matches Err(error) && error@ == expected
}

/// The result is the error that says `name` is not registered.
pub open spec fn is_not_found<T, E>(result: Result<T, RegistryError<E>>, name: Seq<char>) -> bool {
    fails_with(result, RegistryErrorView::NotFound { name })
}

/// The result is the answer `expected`.
pub open spec fn answers<E>(result: Result<bool, RegistryError<E>>, expected: bool) -> bool {
    result matches Ok(answer) && answer == expected
}

/// The error that reports a failed gate for the module `name`.
pub open spec fn gate_error<E>(gate: SecurityGate, name: Seq<char>) -> RegistryErrorView<E> {
    match gate {
        SecurityGate::Signature => RegistryErrorView::SignatureInvalid { name },
        SecurityGate::Approval => RegistryErrorView::NotApproved { name },
        SecurityGate::SupplyChain => RegistryErrorView::SupplyChainUnverified { name },
    }
}

} // verus!
