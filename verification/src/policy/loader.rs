//! Policy configurations, as a configuration file describes them, and their
//! conversion to rules and policies.
use vstd::prelude::*;

use crate::common::text::{
    ascii_lowered, is_ascii_text, lowercase_of, opt_text, str_eq, to_lowercase,
};

use super::error::PolicyEngineError;
use super::policy::Policy;
use super::rule::{Rule, RuleType};

verus! {

/// A rule as a configuration describes it.
#[derive(Debug, Clone)]
pub struct RuleConfig {
    /// Type of rule: "Allow", "Deny", or "Require", in any case.
    pub rule_type: String,
    /// The fact key to evaluate.
    pub fact: String,
    /// The regex pattern to match.
    pub pattern: String,
    /// Optional description.
    pub description: Option<String>,
}

/// The rule type that a lowercased type name stands for.
pub open spec fn parse_rule_type(lower: Seq<char>) -> Option<RuleType> {
    if lower == "allow"@ {
        Some(RuleType::Allow)
    } else if lower == "deny"@ {
        Some(RuleType::Deny)
    } else if lower == "require"@ {
        Some(RuleType::Require)
    } else {
        None
    }
}

/// The rule type that a configured type name stands for, in any case.
pub open spec fn configured_type(c: RuleConfig) -> Option<RuleType> {
    parse_rule_type(lowercase_of(c.rule_type@))
}

/// The message for a type name that is none of the three.
pub open spec fn invalid_type_message(lower: Seq<char>) -> Seq<char> {
    "Invalid rule type: '"@ + lower + "'. Expected 'Allow', 'Deny', or 'Require'."@
}

/// `r` is the rule that the configuration `c` describes.
pub open spec fn rule_from(c: RuleConfig, r: Rule) -> bool {
    &&& configured_type(c) == Some(r.rule_type)
    &&& r.fact@ == c.fact@
    &&& r.pattern@ == c.pattern@
    &&& opt_text(r.description) == opt_text(c.description)
}

/// `e` is the error for the configuration `c`, whose type name is invalid.
pub open spec fn invalid_type_error(c: RuleConfig, e: PolicyEngineError) -> bool {
    e matches PolicyEngineError::InvalidConfiguration(m) && m@ == invalid_type_message(
        lowercase_of(c.rule_type@),
    )
}

/// Every rule configuration names a valid type.
pub open spec fn all_types_valid(cs: Seq<RuleConfig>) -> bool {
    forall|i: int| 0 <= i < cs.len() ==> #[trigger] configured_type(cs[i]) is Some
}

/// `e` is the error of the first rule configuration with an invalid type.
pub open spec fn first_invalid_type(cs: Seq<RuleConfig>, e: PolicyEngineError) -> bool {
    exists|i: int|
        0 <= i < cs.len() && all_types_valid(cs.take(i)) && #[trigger] configured_type(cs[i]) is None
            && invalid_type_error(cs[i], e)
}

impl RuleConfig {
    /// Converts this configuration to a rule; the type name is read in any
    /// case, and one that is none of the three is an error.
    pub fn to_rule(&self) -> (r: Result<Rule, PolicyEngineError>)
        ensures
            is_ascii_text(self.rule_type@) ==> lowercase_of(self.rule_type@) == ascii_lowered(
                self.rule_type@,
            ),
            r is Ok <==> configured_type(*self) is Some,
            match r {
                Ok(rule) => rule_from(*self, rule),
                Err(e) => invalid_type_error(*self, e),
            },
    {
        let lower = to_lowercase(self.rule_type.as_str());
        let rule_type = if str_eq(lower.as_str(), "allow") {
            RuleType::Allow
        } else if str_eq(lower.as_str(), "deny") {
            RuleType::Deny
        } else if str_eq(lower.as_str(), "require") {
            RuleType::Require
        } else {
            let mut message = String::from_str("Invalid rule type: '");
            message.append(lower.as_str());
            message.append("'. Expected 'Allow', 'Deny', or 'Require'.");
            return Err(PolicyEngineError::InvalidConfiguration(message));
        };
        let rule = Rule::new(rule_type, self.fact.as_str(), self.pattern.as_str());
        match &self.description {
            Some(d) => Ok(rule.with_description(d.as_str())),
            None => Ok(rule),
        }
    }
}

/// Whether a policy configuration leaves `enabled` out: it is then on.
pub fn default_true() -> (r: bool)
    ensures
        r,
{
    true
}

/// A policy as a configuration describes it.
#[derive(Debug, Clone)]
pub struct PolicyConfig {
    /// Name of the policy.
    pub name: String,
    /// Description of the policy.
    pub description: Option<String>,
    /// List of rules.
    pub rules: Vec<RuleConfig>,
    /// Whether the policy is enabled.
    pub enabled: bool,
}

/// `p` is the policy that the configuration `c` describes.
pub open spec fn policy_from(c: PolicyConfig, p: Policy) -> bool {
    &&& p.name@ == c.name@
    &&& opt_text(p.description) == opt_text(c.description)
    &&& p.enabled == c.enabled
    &&& p.rules@.len() == c.rules@.len()
    &&& forall|i: int| 0 <= i < p.rules@.len() ==> rule_from(c.rules@[i], #[trigger] p.rules@[i])
}

/// `r` is what converting the configuration `c` gives: the policy it
/// describes where every rule type is valid, else the error of the first
/// invalid one.
pub open spec fn policy_conversion(c: PolicyConfig, r: Result<Policy, PolicyEngineError>) -> bool {
    &&& r is Ok <==> all_types_valid(c.rules@)
    &&& match r {
        Ok(p) => policy_from(c, p),
        Err(e) => first_invalid_type(c.rules@, e),
    }
}

impl PolicyConfig {
    /// Converts this configuration to a policy; the first rule with an
    /// invalid type name makes it an error.
    pub fn to_policy(&self) -> (r: Result<Policy, PolicyEngineError>)
        ensures
            r is Ok <==> all_types_valid(self.rules@),
            match r {
                Ok(p) => policy_from(*self, p),
                Err(e) => first_invalid_type(self.rules@, e),
            },
            policy_conversion(*self, r),
    {
        let mut policy = Policy::new(self.name.as_str()).set_enabled(self.enabled);
        match &self.description {
            Some(d) => {
                policy = policy.with_description(d.as_str());
            },
            None => {},
        }
        let mut i: usize = 0;
        while i < self.rules.len()
            invariant
                i <= self.rules@.len(),
                all_types_valid(self.rules@.take(i as int)),
                policy.name@ == self.name@,
                opt_text(policy.description) == opt_text(self.description),
                policy.enabled == self.enabled,
                policy.rules@.len() == i,
                forall|j: int|
                    0 <= j < i ==> rule_from(self.rules@[j], #[trigger] policy.rules@[j]),
            decreases self.rules@.len() - i,
        {
            let rule = match self.rules[i].to_rule() {
                Ok(rule) => rule,
                Err(e) => {
                    assert(first_invalid_type(self.rules@, e)) by {
                        assert(configured_type(self.rules@[i as int]) is None);
                    }
                    return Err(e);
                },
            };
            let ghost before = policy.rules@;
            policy = policy.add_rule(rule);
            assert(all_types_valid(self.rules@.take(i + 1))) by {
                assert forall|j: int| 0 <= j < i + 1 implies #[trigger] configured_type(
                    self.rules@.take(i + 1)[j],
                ) is Some by {
                    if j < i {
                        assert(self.rules@.take(i + 1)[j] == self.rules@.take(i as int)[j]);
                    }
                }
            }
            assert forall|j: int| 0 <= j < i + 1 implies rule_from(
                self.rules@[j],
                #[trigger] policy.rules@[j],
            ) by {
                if j < i {
                    assert(policy.rules@[j] == before[j]);
                }
            }
            i = i + 1;
        }
        assert(self.rules@.take(self.rules@.len() as int) =~= self.rules@);
        Ok(policy)
    }
}

/// The top level of a policy configuration file.
#[derive(Debug, Clone)]
pub struct PoliciesConfigFile {
    /// Version of the configuration format.
    pub version: Option<String>,
    /// List of policies.
    pub policies: Vec<PolicyConfig>,
}

impl PoliciesConfigFile {
    /// Converts all configurations to policies, in order; the first policy
    /// configuration that cannot be converted makes it an error.
    pub fn to_policies(&self) -> (r: Result<Vec<Policy>, PolicyEngineError>)
        ensures
            r is Ok <==> forall|i: int|
                0 <= i < self.policies@.len() ==> all_types_valid(
                    #[trigger] self.policies@[i].rules@,
                ),
            match r {
                Ok(ps) => ps@.len() == self.policies@.len() && forall|i: int|
                    0 <= i < ps@.len() ==> policy_from(self.policies@[i], #[trigger] ps@[i]),
                Err(e) => exists|i: int|
                    0 <= i < self.policies@.len() && (forall|j: int|
                        0 <= j < i ==> all_types_valid(#[trigger] self.policies@[j].rules@))
                        && first_invalid_type(#[trigger] self.policies@[i].rules@, e),
            },
    {
        let mut out: Vec<Policy> = Vec::new();
        let mut i: usize = 0;
        while i < self.policies.len()
            invariant
                i <= self.policies@.len(),
                forall|j: int| 0 <= j < i ==> all_types_valid(#[trigger] self.policies@[j].rules@),
                out@.len() == i,
                forall|j: int| 0 <= j < i ==> policy_from(self.policies@[j], #[trigger] out@[j]),
            decreases self.policies@.len() - i,
        {
            match self.policies[i].to_policy() {
                Ok(p) => {
                    let ghost before = out@;
                    out.push(p);
                    assert forall|j: int| 0 <= j < i + 1 implies policy_from(
                        self.policies@[j],
                        #[trigger] out@[j],
                    ) by {
                        if j < i {
                            assert(out@[j] == before[j]);
                        }
                    }
                },
                Err(e) => {
                    assert(!all_types_valid(self.policies@[i as int].rules@));
                    return Err(e);
                },
            }
            i = i + 1;
        }
        Ok(out)
    }
}

} // verus!
