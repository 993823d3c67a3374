use vstd::prelude::*;

verus! {

/// Why provisioning or teardown did not succeed.
#[derive(Clone, Debug, PartialEq, Eq)]
pub enum ProvisionError {
    /// The request contradicts itself (a volume field without the other two).
    InvalidRequest,
    /// A manifest was not in the state a step needs (its node selector already set).
    InvalidState,
    /// A call to the cluster failed.
    GatewayError { cause: String },
    /// The pod did not become ready before the deadline.
    ProvisioningTimedOut,
    /// Waiting for the pod to become ready failed.
    ProvisioningFailed { cause: String },
    /// The pod became ready but reports no network address.
    AddressUnavailable,
    /// No pod has the address that teardown was asked for.
    NotFound { address: String },
}

impl ProvisionError {
    /// A copy of this error.
    pub fn duplicate(&self) -> (r: ProvisionError)
        ensures
            r == *self,
    {
        match self {
            ProvisionError::InvalidRequest => ProvisionError::InvalidRequest,
            ProvisionError::InvalidState => ProvisionError::InvalidState,
            ProvisionError::GatewayError { cause } => ProvisionError::GatewayError {
                cause: cause.clone(),
            },
            ProvisionError::ProvisioningTimedOut => ProvisionError::ProvisioningTimedOut,
            ProvisionError::ProvisioningFailed { cause } => ProvisionError::ProvisioningFailed {
                cause: cause.clone(),
            },
            ProvisionError::AddressUnavailable => ProvisionError::AddressUnavailable,
            ProvisionError::NotFound { address } => ProvisionError::NotFound {
                address: address.clone(),
            },
        }
    }
}

} // verus!
