//! Policy rules: Allow, Deny and Require, each matching a fact against a
//! regular expression.
use vstd::prelude::*;

use super::context::EvaluationContext;
use super::error::PolicyEngineError;
use super::pattern::{regex_compile_error, regex_compiles, regex_is_match, regex_matches};

verus! {

/// Types of policy rules.
#[derive(Debug, Clone, Copy, PartialEq, Eq, Structural)]
pub enum RuleType {
    /// A present fact must match the pattern; an absent fact is allowed.
    Allow,
    /// A present fact must not match the pattern; an absent fact is allowed.
    Deny,
    /// The fact must be present and match the pattern.
    Require,
}

/// The name of a rule type.
pub open spec fn rule_type_name(t: RuleType) -> Seq<char> {
    match t {
        RuleType::Allow => "Allow"@,
        RuleType::Deny => "Deny"@,
        RuleType::Require => "Require"@,
    }
}

impl RuleType {
    /// The name of the rule type.
    pub fn as_str(&self) -> (r: &'static str)
        ensures
            r@ == rule_type_name(*self),
    {
        proof {
            reveal_strlit("Allow");
            reveal_strlit("Deny");
            reveal_strlit("Require");
        }
        match self {
            RuleType::Allow => "Allow",
            RuleType::Deny => "Deny",
            RuleType::Require => "Require",
        }
    }
}

/// Whether a rule of type `t` with `pattern` is satisfied by a fact whose
/// text is `fact` (`None` where the fact is absent or not text).
pub open spec fn rule_satisfied(t: RuleType, pattern: Seq<char>, fact: Option<Seq<char>>) -> bool {
    match fact {
        Some(value) => match t {
            RuleType::Allow => regex_matches(pattern, value),
            RuleType::Deny => !regex_matches(pattern, value),
            RuleType::Require => regex_matches(pattern, value),
        },
        None => t != RuleType::Require,
    }
}

/// `r` is what evaluating `rule` against `ctx` gives: the rule's verdict on
/// the fact's text where the pattern compiles, else the compilation error.
pub open spec fn rule_evaluation(rule: Rule, ctx: EvaluationContext, r: Result<bool, PolicyEngineError>) -> bool {
    match r {
        Ok(b) => regex_compiles(rule.pattern@) && b == rule_satisfied(
            rule.rule_type,
            rule.pattern@,
            ctx.string_fact(rule.fact@),
        ),
        Err(e) => !regex_compiles(rule.pattern@) && (e matches PolicyEngineError::RegexCompilationError {
            pattern,
            ..
        } && pattern@ == rule.pattern@),
    }
}

/// A policy rule with pattern matching.
#[derive(Debug)]
pub struct Rule {
    /// The type of rule (Allow, Deny, Require).
    pub rule_type: RuleType,
    /// The fact key to evaluate.
    pub fact: String,
    /// The regex pattern to match against the fact value.
    pub pattern: String,
    /// Optional human-readable description of the rule.
    pub description: Option<String>,
}

/// Copies an optional text.
pub fn clone_opt_string(s: &Option<String>) -> (r: Option<String>)
    ensures
        r == *s,
{
    match s {
        Some(t) => Some(t.clone()),
        None => None,
    }
}

impl Clone for Rule {
    fn clone(&self) -> (r: Self)
        ensures
            r == *self,
    {
        Rule {
            rule_type: self.rule_type,
            fact: self.fact.clone(),
            pattern: self.pattern.clone(),
            description: clone_opt_string(&self.description),
        }
    }
}

impl Rule {
    /// Creates a new rule without a description.
    pub fn new(rule_type: RuleType, fact: &str, pattern: &str) -> (r: Self)
        ensures
            r.rule_type == rule_type,
            r.fact@ == fact@,
            r.pattern@ == pattern@,
            r.description is None,
    {
        Rule {
            rule_type,
            fact: String::from_str(fact),
            pattern: String::from_str(pattern),
            description: None,
        }
    }

    /// Sets the description of the rule.
    pub fn with_description(self, description: &str) -> (r: Self)
        ensures
            r.rule_type == self.rule_type,
            r.fact == self.fact,
            r.pattern == self.pattern,
            r.description matches Some(d) && d@ == description@,
    {
        Rule { description: Some(String::from_str(description)), ..self }
    }

    /// Evaluates this rule against a context.
    ///
    /// Returns `Ok(true)` if the rule is satisfied, `Ok(false)` if violated,
    /// and an error when the pattern does not compile (whatever the facts).
    pub fn evaluate(&self, context: &EvaluationContext) -> (r: Result<bool, PolicyEngineError>)
        ensures
            match r {
                Ok(b) => regex_compiles(self.pattern@) && b == rule_satisfied(
                    self.rule_type,
                    self.pattern@,
                    context.string_fact(self.fact@),
                ),
                Err(e) => !regex_compiles(self.pattern@) && (e matches PolicyEngineError::RegexCompilationError {
                    pattern,
                    ..
                } && pattern@ == self.pattern@),
            },
            rule_evaluation(*self, *context, r),
    {
        if let Some(source) = regex_compile_error(self.pattern.as_str()) {
            return Err(
                PolicyEngineError::RegexCompilationError { pattern: self.pattern.clone(), source },
            );
        }
        let fact_value = context.get_string(self.fact.as_str());
        match self.rule_type {
            RuleType::Allow => match fact_value {
                Some(value) => Ok(regex_is_match(self.pattern.as_str(), value.as_str())),
                None => Ok(true),
            },
            RuleType::Deny => match fact_value {
                Some(value) => Ok(!regex_is_match(self.pattern.as_str(), value.as_str())),
                None => Ok(true),
            },
            RuleType::Require => match fact_value {
                Some(value) => Ok(regex_is_match(self.pattern.as_str(), value.as_str())),
                None => Ok(false),
            },
        }
    }
}

} // verus!
