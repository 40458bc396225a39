//! Authorization of workload lifecycle operations.
//!
//! A policy manager decides whether a host may perform a lifecycle action. The
//! handlers take the decision as a value, so any transport-backed manager can
//! sit outside; the default manager defined here permits everything.

use vstd::prelude::*;

verus! {

/// What a policy manager is asked about: the action and the workload it
/// concerns.
pub struct PolicyRequest {
    pub action: String,
    pub subject_id: String,
    pub reference: String,
}

/// A policy manager's verdict; a denial carries the manager's reason, which
/// may be empty.
pub enum PolicyDecision {
    Allow,
    Deny(String),
}

/// View of [`PolicyDecision`].
pub enum PolicyDecisionX {
    Allow,
    Deny(Seq<char>),
}

impl DeepView for PolicyDecision {
    type V = PolicyDecisionX;

    open spec fn deep_view(&self) -> PolicyDecisionX {
        match self {
            PolicyDecision::Allow => PolicyDecisionX::Allow,
            PolicyDecision::Deny(msg) => PolicyDecisionX::Deny(msg@),
        }
    }
}

/// A default policy manager that always returns true for all requests.
/// This is used when no policy manager is configured.
pub struct DefaultPolicyManager;

impl DefaultPolicyManager {
    /// Create a new default policy manager.
    pub fn new() -> (r: DefaultPolicyManager) {
        DefaultPolicyManager {  }
    }

    /// Permits the request, whatever it asks.
    pub fn evaluate(&self, request: &PolicyRequest) -> (r: PolicyDecision)
        ensures
            r is Allow,
    {
        PolicyDecision::Allow
    }
}

} // verus!
