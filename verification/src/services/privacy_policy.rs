use vstd::prelude::*;

verus! {

/// Configuration for the privacy policy service.
#[derive(Debug, Clone, Copy, PartialEq, Eq, Structural)]
pub struct PrivacyPolicyConfig {
    /// Whether policy enforcement is enabled
    pub enforcement_enabled: bool,
    /// Whether to log policy violations
    pub log_violations: bool,
    /// Whether to block operations that violate policies
    pub block_violations: bool,
}

impl Default for PrivacyPolicyConfig {
    /// Enforce, log and block.
    fn default() -> (r: Self)
        ensures
            r.enforcement_enabled && r.log_violations && r.block_violations,
    {
        PrivacyPolicyConfig { enforcement_enabled: true, log_violations: true, block_violations: true }
    }
}

/// What enforcing a rule found: whether the context complies, and the
/// details and suggested remedy.
#[derive(Debug, Clone)]
pub struct EnforcementOutcome {
    /// The rule that was enforced
    pub rule_id: String,
    /// Whether the policy check passed
    pub compliant: bool,
    /// Details about the enforcement result
    pub details: String,
    /// Suggested remediation
    pub remediation: Option<String>,
}

/// What the service does with the outcomes of enforcing rules under a
/// configuration.
#[derive(Debug, Clone, Copy, PartialEq, Eq, Structural)]
pub enum EnforcementVerdict {
    /// Enforcement is disabled: nothing is checked
    Skipped,
    /// The outcomes stand
    Allowed,
    /// The operation is refused for the violation at this position
    Blocked(usize),
}

/// The verdict on the outcomes of enforcing the applicable rules: skipped
/// when enforcement is off, blocked at the first violation when violations
/// are blocked, allowed otherwise.
pub fn enforcement_verdict(outcomes: &Vec<EnforcementOutcome>, config: &PrivacyPolicyConfig) -> (r: EnforcementVerdict)
    ensures
        !config.enforcement_enabled ==> r == EnforcementVerdict::Skipped,
        config.enforcement_enabled ==> match r {
            EnforcementVerdict::Skipped => false,
            EnforcementVerdict::Blocked(i) => config.block_violations && i < outcomes@.len()
                && !outcomes@[i as int].compliant
                && forall|j: int| 0 <= j < i ==> (#[trigger] outcomes@[j]).compliant,
            EnforcementVerdict::Allowed => !config.block_violations
                || forall|j: int| 0 <= j < outcomes@.len() ==> (#[trigger] outcomes@[j]).compliant,
        },
{
    if !config.enforcement_enabled {
        return EnforcementVerdict::Skipped;
    }
    if config.block_violations {
        let mut i: usize = 0;
        while i < outcomes.len()
            invariant
                config.enforcement_enabled,
                config.block_violations,
                i <= outcomes@.len(),
                forall|j: int| 0 <= j < i ==> (#[trigger] outcomes@[j]).compliant,
            decreases outcomes@.len() - i,
        {
            if !outcomes[i].compliant {
                return EnforcementVerdict::Blocked(i);
            }
            i = i + 1;
        }
    }
    EnforcementVerdict::Allowed
}

/// Whether a violation is logged under the configuration.
pub fn logs_violation(outcome: &EnforcementOutcome, config: &PrivacyPolicyConfig) -> (r: bool)
    ensures
        r == (!outcome.compliant && config.log_violations),
{
    !outcome.compliant && config.log_violations
}

} // verus!
