//! Policies: named, switchable sets of rules, and their evaluation.
use vstd::prelude::*;

use super::context::EvaluationContext;
use super::error::PolicyEngineError;
use super::pattern::regex_compiles;
use super::result::{empty_metadata, PolicyResult, Severity, Violation};
use super::rule::{clone_opt_string, rule_satisfied, rule_type_name, Rule};

verus! {

/// Whether `rule` holds of the text facts of `ctx`.
pub open spec fn rule_holds(rule: Rule, ctx: EvaluationContext) -> bool {
    rule_satisfied(rule.rule_type, rule.pattern@, ctx.string_fact(rule.fact@))
}

/// Every rule's pattern compiles.
pub open spec fn all_compile(rules: Seq<Rule>) -> bool {
    forall|i: int| 0 <= i < rules.len() ==> regex_compiles(#[trigger] rules[i].pattern@)
}

/// The rules of `rules` that do not hold of `ctx`, in order.
pub open spec fn failing_rules(rules: Seq<Rule>, ctx: EvaluationContext) -> Seq<Rule>
    decreases rules.len(),
{
    if rules.len() == 0 {
        Seq::empty()
    } else {
        let prev = failing_rules(rules.drop_last(), ctx);
        if rule_holds(rules.last(), ctx) {
            prev
        } else {
            prev.push(rules.last())
        }
    }
}

/// `e` reports the first rule of `rules` whose pattern does not compile.
pub open spec fn reports_bad_pattern(rules: Seq<Rule>, e: PolicyEngineError) -> bool {
    exists|i: int|
        0 <= i < rules.len() && !regex_compiles(#[trigger] rules[i].pattern@) && all_compile(
            rules.take(i),
        ) && (e matches PolicyEngineError::RegexCompilationError { pattern, .. } && pattern@
            == rules[i].pattern@)
}

/// The message of a violation of `rule` in the policy named `policy`.
pub open spec fn violation_message(policy: Seq<char>, rule: Rule) -> Seq<char> {
    "Policy '"@ + policy + "' rule "@ + rule_type_name(rule.rule_type) + " violated: fact '"@
        + rule.fact@ + "' did not match pattern '"@ + rule.pattern@ + "'"@
}

/// `v` is the violation that the policy named `policy` reports for `rule`.
pub open spec fn is_violation_of(v: Violation, policy: Seq<char>, rule: Rule) -> bool {
    &&& v.policy@ == policy
    &&& v.rule_type@ == rule_type_name(rule.rule_type)
    &&& v.condition@ == rule.pattern@
    &&& v.severity == Severity::Error
    &&& v.message@ == violation_message(policy, rule)
}

/// `vs` holds one violation for each of `rules`, in the same order.
pub open spec fn reports(vs: Seq<Violation>, policy: Seq<char>, rules: Seq<Rule>) -> bool {
    &&& vs.len() == rules.len()
    &&& forall|i: int| 0 <= i < vs.len() ==> is_violation_of(#[trigger] vs[i], policy, rules[i])
}

/// Trait for evaluable policies: a name, and an evaluation against a
/// context.
pub trait EvaluablePolicy {
    /// The name of the policy.
    fn name(&self) -> &str;

    /// Evaluates this policy against the given context.
    fn evaluate(&self, context: &EvaluationContext) -> Result<PolicyResult, PolicyEngineError>;
}

/// A concrete policy implementation with rules.
#[derive(Debug)]
pub struct Policy {
    /// Name of the policy.
    pub name: String,
    /// Human-readable description.
    pub description: Option<String>,
    /// Set of rules to evaluate.
    pub rules: Vec<Rule>,
    /// Whether this policy is enabled.
    pub enabled: bool,
}

/// What a policy is, up to copies: its name, description, rules and switch.
pub struct PolicyView {
    pub name: Seq<char>,
    pub description: Option<Seq<char>>,
    pub rules: Seq<Rule>,
    pub enabled: bool,
}

impl View for Policy {
    type V = PolicyView;

    open spec fn view(&self) -> PolicyView {
        PolicyView {
            name: self.name@,
            description: match self.description {
                Some(d) => Some(d@),
                None => None,
            },
            rules: self.rules@,
            enabled: self.enabled,
        }
    }
}

/// Whether evaluating `p` succeeds: it is disabled, or every pattern of its
/// rules compiles.
pub open spec fn policy_evaluates(p: PolicyView) -> bool {
    !p.enabled || all_compile(p.rules)
}

/// The rules of `p` that `ctx` violates: none when `p` is disabled.
pub open spec fn policy_failures(p: PolicyView, ctx: EvaluationContext) -> Seq<Rule> {
    if p.enabled {
        failing_rules(p.rules, ctx)
    } else {
        Seq::empty()
    }
}

/// Copies a list of rules, element by element.
pub fn clone_rules(v: &Vec<Rule>) -> (r: Vec<Rule>)
    ensures
        r@ == v@,
{
    let mut out: Vec<Rule> = Vec::new();
    let mut i: usize = 0;
    while i < v.len()
        invariant
            i <= v.len(),
            out@ == v@.take(i as int),
        decreases v.len() - i,
    {
        out.push(v[i].clone());
        assert(v@.take(i + 1) =~= v@.take(i as int).push(v@[i as int]));
        i = i + 1;
    }
    assert(v@.take(v.len() as int) =~= v@);
    out
}

impl Clone for Policy {
    fn clone(&self) -> (r: Self)
        ensures
            r@ == self@,
            r.name == self.name,
            r.description == self.description,
            r.rules@ == self.rules@,
            r.enabled == self.enabled,
    {
        let rules = clone_rules(&self.rules);
        Policy {
            name: self.name.clone(),
            description: clone_opt_string(&self.description),
            rules,
            enabled: self.enabled,
        }
    }
}

/// The message of a violation of `rule` in the policy named `policy`.
fn violation_text(policy: &str, rule: &Rule) -> (r: String)
    ensures
        r@ == violation_message(policy@, *rule),
{
    let mut m = String::from_str("Policy '");
    m.append(policy);
    m.append("' rule ");
    m.append(rule.rule_type.as_str());
    m.append(" violated: fact '");
    m.append(rule.fact.as_str());
    m.append("' did not match pattern '");
    m.append(rule.pattern.as_str());
    m.append("'");
    m
}

impl Policy {
    /// Creates a new enabled policy with no rules and no description.
    pub fn new(name: &str) -> (r: Self)
        ensures
            r.name@ == name@,
            r.description is None,
            r.rules@.len() == 0,
            r.enabled,
    {
        Policy { name: String::from_str(name), description: None, rules: Vec::new(), enabled: true }
    }

    /// Sets the description.
    pub fn with_description(self, description: &str) -> (r: Self)
        ensures
            r.name == self.name,
            r.description matches Some(d) && d@ == description@,
            r.rules == self.rules,
            r.enabled == self.enabled,
    {
        Policy { description: Some(String::from_str(description)), ..self }
    }

    /// Adds a rule to the policy, after the ones it has.
    pub fn add_rule(self, rule: Rule) -> (r: Self)
        ensures
            r.name == self.name,
            r.description == self.description,
            r.rules@ == self.rules@.push(rule),
            r.enabled == self.enabled,
    {
        let mut p = self;
        p.rules.push(rule);
        p
    }

    /// Sets whether this policy is enabled.
    pub fn set_enabled(self, enabled: bool) -> (r: Self)
        ensures
            r.name == self.name,
            r.description == self.description,
            r.rules == self.rules,
            r.enabled == enabled,
    {
        Policy { enabled, ..self }
    }

    /// Gets the rules.
    pub fn rules(&self) -> (r: &[Rule])
        ensures
            r@ == self.rules@,
    {
        self.rules.as_slice()
    }
}

impl EvaluablePolicy for Policy {
    /// The name of the policy.
    fn name(&self) -> (r: &str)
        ensures
            r@ == self.name@,
    {
        self.name.as_str()
    }

    /// Evaluates the policy: a disabled policy passes; an enabled one
    /// reports, in rule order, one error-level violation for each rule that
    /// does not hold, and fails with the first pattern that does not compile.
    fn evaluate(&self, context: &EvaluationContext) -> (r: Result<PolicyResult, PolicyEngineError>)
        ensures
            r is Ok <==> policy_evaluates(self@),
            match r {
                Ok(res) => {
                    &&& reports(res.violations@, self.name@, policy_failures(self@, *context))
                    &&& res.passed == (res.violations@.len() == 0)
                    &&& empty_metadata(res)
                },
                Err(e) => self.enabled && reports_bad_pattern(self.rules@, e),
            },
    {
        if !self.enabled {
            return Ok(PolicyResult::passed());
        }
        let mut result = PolicyResult::passed();
        let mut i: usize = 0;
        while i < self.rules.len()
            invariant
                self.enabled,
                i <= self.rules@.len(),
                all_compile(self.rules@.take(i as int)),
                reports(
                    result.violations@,
                    self.name@,
                    failing_rules(self.rules@.take(i as int), *context),
                ),
                result.passed == (result.violations@.len() == 0),
                empty_metadata(result),
            decreases self.rules@.len() - i,
        {
            let rule = &self.rules[i];
            assert(self.rules@.take(i + 1).drop_last() =~= self.rules@.take(i as int));
            let satisfied = match rule.evaluate(context) {
                Ok(b) => b,
                Err(e) => {
                    assert(reports_bad_pattern(self.rules@, e)) by {
                        assert(self.rules@[i as int].pattern@ == rule.pattern@);
                    }
                    return Err(e);
                },
            };
            assert(all_compile(self.rules@.take(i + 1))) by {
                assert forall|j: int| 0 <= j < i + 1 implies regex_compiles(
                    #[trigger] self.rules@.take(i + 1)[j].pattern@,
                ) by {
                    if j < i {
                        assert(self.rules@.take(i + 1)[j] == self.rules@.take(i as int)[j]);
                    }
                }
            }
            if !satisfied {
                let message = violation_text(self.name.as_str(), rule);
                let violation = Violation::new(
                    self.name.as_str(),
                    rule.rule_type.as_str(),
                    rule.pattern.as_str(),
                    Severity::Error,
                    message.as_str(),
                );
                let ghost before = result.violations@;
                result.add_violation(violation);
                assert forall|j: int| 0 <= j < result.violations@.len() implies is_violation_of(
                    #[trigger] result.violations@[j],
                    self.name@,
                    failing_rules(self.rules@.take(i + 1), *context)[j],
                ) by {
                    if j < before.len() {
                        assert(result.violations@[j] == before[j]);
                    }
                }
            }
            i = i + 1;
        }
        assert(self.rules@.take(self.rules@.len() as int) =~= self.rules@);
        Ok(result)
    }
}

} // verus!
