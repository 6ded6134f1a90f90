//! What holds of policies, results and the engine across their operations.
use vstd::prelude::*;

use super::context::{EvaluationContext, FactValue};
use super::engine::{evaluation_of, evaluation_of_all, reports_all, with_switch};
use super::error::PolicyEngineError;
use super::policy::{
    failing_rules, is_violation_of, policy_failures, reports, rule_holds, Policy, PolicyView,
};
use super::result::{no_errors, PolicyResult, Severity, Violation};
use super::loader::parse_rule_type;
use super::rule::{rule_evaluation, rule_satisfied, rule_type_name, Rule, RuleType};
use super::loader::{all_types_valid, configured_type, policy_conversion, PolicyConfig};
use super::pattern::{regex_compiles, regex_matches};
use crate::common::text::{lowercase_of, opt_text};
use crate::common::text::{ascii_lowered, is_ascii_text};

verus! {

/// A fact set in a context is read back as it was set, and every other
/// fact is untouched.
pub proof fn law_get_after_set(
    m: Map<Seq<char>, FactValue>,
    k: Seq<char>,
    v: FactValue,
    other: Seq<char>,
)
    ensures
        m.insert(k, v).contains_key(k),
        m.insert(k, v)[k] == v,
        other != k ==> (m.insert(k, v).contains_key(other) == m.contains_key(other)),
        other != k && m.contains_key(other) ==> m.insert(k, v)[other] == m[other],
{
}

/// Merging keeps every fact of both contexts; where both have a fact, the
/// merged-in context's wins.
pub proof fn law_merge_prefers_other(
    a: Map<Seq<char>, FactValue>,
    b: Map<Seq<char>, FactValue>,
    k: Seq<char>,
)
    ensures
        a.union_prefer_right(b).contains_key(k) <==> (a.contains_key(k) || b.contains_key(k)),
        b.contains_key(k) ==> a.union_prefer_right(b)[k] == b[k],
        !b.contains_key(k) && a.contains_key(k) ==> a.union_prefer_right(b)[k] == a[k],
{
}

/// A rule whose fact is absent (or not text) is violated exactly when it is
/// a `Require` rule: `Allow` and `Deny` only judge facts that are there.
pub proof fn law_absent_fact_fails_only_require(t: RuleType, pattern: Seq<char>)
    ensures
        rule_satisfied(t, pattern, None) <==> t != RuleType::Require,
{
}

/// A disabled policy always passes, with no violation, whatever the context
/// and whatever its rules.
pub proof fn law_disabled_policy_passes(
    p: PolicyView,
    ctx: EvaluationContext,
    r: Result<PolicyResult, PolicyEngineError>,
)
    requires
        evaluation_of(p, ctx, r),
        !p.enabled,
    ensures
        r matches Ok(res) && res.passed && res.violations@.len() == 0,
{
}

/// No rule fails exactly when every rule holds.
pub proof fn lemma_no_failing_rule(rules: Seq<super::rule::Rule>, ctx: EvaluationContext)
    ensures
        failing_rules(rules, ctx).len() == 0 <==> forall|i: int|
            0 <= i < rules.len() ==> rule_holds(#[trigger] rules[i], ctx),
    decreases rules.len(),
{
    if rules.len() > 0 {
        let prev = rules.drop_last();
        lemma_no_failing_rule(prev, ctx);
        assert forall|i: int| 0 <= i < prev.len() implies prev[i] == rules[i] by {}
        if failing_rules(rules, ctx).len() == 0 {
            assert forall|i: int| 0 <= i < rules.len() implies rule_holds(#[trigger] rules[i], ctx) by {
                if i < prev.len() {
                    assert(rule_holds(prev[i], ctx));
                }
            }
        }
    }
}

/// An enabled policy that evaluates passes exactly when every one of its
/// rules holds of the context; each violation it reports is an error that
/// names the policy.
pub proof fn law_policy_passes_iff_rules_hold(
    p: PolicyView,
    ctx: EvaluationContext,
    res: PolicyResult,
)
    requires
        evaluation_of(p, ctx, Ok(res)),
        p.enabled,
    ensures
        res.passed <==> forall|i: int| 0 <= i < p.rules.len() ==> rule_holds(#[trigger] p.rules[i], ctx),
        forall|i: int|
            0 <= i < res.violations@.len() ==> (#[trigger] res.violations@[i]).severity
                == Severity::Error && res.violations@[i].policy@ == p.name,
{
    lemma_no_failing_rule(p.rules, ctx);
    assert forall|i: int| 0 <= i < res.violations@.len() implies (#[trigger] res.violations@[i]).severity
        == Severity::Error && res.violations@[i].policy@ == p.name by {
        assert(is_violation_of(res.violations@[i], p.name, policy_failures(p, ctx)[i]));
    }
}

/// Adding a violation keeps "passed" meaning "no error-level violation": the
/// list with one more violation is free of errors exactly when the list was
/// and the new violation is not an error.
pub proof fn law_passed_tracks_errors(vs: Seq<Violation>, v: Violation)
    ensures
        no_errors(vs.push(v)) <==> (no_errors(vs) && v.severity != Severity::Error),
{
    if no_errors(vs) && v.severity != Severity::Error {
        assert forall|i: int| 0 <= i < vs.push(v).len() implies #[trigger] vs.push(v)[i].severity
            != Severity::Error by {
            if i < vs.len() {
                assert(vs.push(v)[i] == vs[i]);
            }
        }
    }
    if no_errors(vs.push(v)) {
        assert(vs.push(v)[vs.len() as int] == v);
        assert forall|i: int| 0 <= i < vs.len() implies #[trigger] vs[i].severity
            != Severity::Error by {
            assert(vs.push(v)[i] == vs[i]);
        }
    }
}

/// Combined violations are empty exactly when no policy of the list has a
/// failing rule.
pub proof fn lemma_combined_empty(
    vs: Seq<Violation>,
    es: Seq<(Seq<char>, PolicyView)>,
    ctx: EvaluationContext,
)
    requires
        reports_all(vs, es, ctx),
    ensures
        vs.len() == 0 <==> forall|i: int|
            0 <= i < es.len() ==> policy_failures(#[trigger] es[i].1, ctx).len() == 0,
    decreases es.len(),
{
    if es.len() > 0 {
        let p = es.last().1;
        let k = policy_failures(p, ctx).len();
        let prev = es.drop_last();
        lemma_combined_empty(vs.take(vs.len() - k), prev, ctx);
        assert forall|i: int| 0 <= i < prev.len() implies prev[i] == es[i] by {}
        if vs.len() == 0 {
            assert forall|i: int| 0 <= i < es.len() implies policy_failures(#[trigger] es[i].1, ctx).len()
                == 0 by {
                if i < prev.len() {
                    assert(policy_failures(prev[i].1, ctx).len() == 0);
                }
            }
        }
        if forall|i: int| 0 <= i < es.len() ==> policy_failures(#[trigger] es[i].1, ctx).len() == 0 {
            assert(policy_failures(es[es.len() - 1].1, ctx).len() == 0);
            assert forall|i: int| 0 <= i < prev.len() implies policy_failures(
                #[trigger] prev[i].1,
                ctx,
            ).len() == 0 by {
                assert(policy_failures(es[i].1, ctx).len() == 0);
            }
        }
    }
}

/// Evaluating several policies together passes exactly when none of them
/// has a rule that the context violates.
pub proof fn law_combined_passes_iff_each_passes(
    es: Seq<(Seq<char>, PolicyView)>,
    ctx: EvaluationContext,
    res: PolicyResult,
)
    requires
        evaluation_of_all(es, ctx, Ok(res)),
    ensures
        res.passed <==> forall|i: int|
            0 <= i < es.len() ==> policy_failures(#[trigger] es[i].1, ctx).len() == 0,
{
    lemma_combined_empty(res.violations@, es, ctx);
}

/// A policy added to the engine is found under its name, as it was added.
pub proof fn law_get_after_add(m: Map<Seq<char>, PolicyView>, p: PolicyView)
    ensures
        m.insert(p.name, p).contains_key(p.name),
        m.insert(p.name, p)[p.name] == p,
{
}

/// Adding a policy under a new name adds one to the count; adding one under
/// a name in use replaces the old policy and keeps the count.
pub proof fn law_add_counts(m: Map<Seq<char>, PolicyView>, p: PolicyView)
    requires
        m.dom().finite(),
    ensures
        m.contains_key(p.name) ==> m.insert(p.name, p).len() == m.len(),
        !m.contains_key(p.name) ==> m.insert(p.name, p).len() == m.len() + 1,
{
    if m.contains_key(p.name) {
        assert(m.insert(p.name, p).dom() =~= m.dom());
    }
}

/// Removing a policy just added leaves the engine as it was, where no policy
/// of that name was there before.
pub proof fn law_remove_undoes_add(m: Map<Seq<char>, PolicyView>, p: PolicyView)
    requires
        !m.contains_key(p.name),
    ensures
        m.insert(p.name, p).remove(p.name) == m,
{
    assert(m.insert(p.name, p).remove(p.name) =~= m);
}

/// Disabling and then enabling an enabled policy gives back the engine as it
/// was; the policy's rules and description are untouched throughout.
pub proof fn law_disable_then_enable_restores(m: Map<Seq<char>, PolicyView>, name: Seq<char>)
    requires
        m.contains_key(name),
        m[name].enabled,
    ensures
        with_switch(with_switch(m, name, false), name, true) == m,
        with_switch(m, name, false)[name].rules == m[name].rules,
        with_switch(m, name, false)[name].description == m[name].description,
        !with_switch(m, name, false)[name].enabled,
{
    assert(with_switch(with_switch(m, name, false), name, true) =~= m);
}

/// The name of every rule type is read back, in any ASCII case, as that
/// rule type: what `as_str` writes, a configuration file may name.
pub proof fn law_rule_type_names_parse_back(t: RuleType)
    ensures
        is_ascii_text(rule_type_name(t)),
        parse_rule_type(ascii_lowered(rule_type_name(t))) == Some(t),
{
    reveal_strlit("Allow");
    reveal_strlit("Deny");
    reveal_strlit("Require");
    reveal_strlit("allow");
    reveal_strlit("deny");
    reveal_strlit("require");
    let n = ascii_lowered(rule_type_name(t));
    match t {
        RuleType::Allow => {
            assert(n =~= "allow"@);
        },
        RuleType::Deny => {
            assert(n =~= "deny"@);
            assert(n != "allow"@);
        },
        RuleType::Require => {
            assert(n =~= "require"@);
            assert(n != "allow"@ && n != "deny"@);
        },
    }
}

/// What each kind of rule decides.  A rule whose pattern does not compile
/// gives an error, whatever the facts.  Otherwise, on a fact present as text
/// `v`: `Allow` and `Require` hold exactly when the pattern matches `v`, and
/// `Deny` exactly when it does not; on an absent (or non-text) fact, `Allow`
/// and `Deny` hold and `Require` does not.
pub proof fn law_rule_verdicts(rule: Rule, ctx: EvaluationContext, r: Result<bool, PolicyEngineError>)
    requires
        rule_evaluation(rule, ctx, r),
    ensures
        r is Err <==> !regex_compiles(rule.pattern@),
        regex_compiles(rule.pattern@) ==> match ctx.string_fact(rule.fact@) {
            Some(v) => {
                &&& rule.rule_type == RuleType::Require ==> r == Ok::<bool, PolicyEngineError>(
                    regex_matches(rule.pattern@, v),
                )
                &&& rule.rule_type == RuleType::Allow ==> r == Ok::<bool, PolicyEngineError>(
                    regex_matches(rule.pattern@, v),
                )
                &&& rule.rule_type == RuleType::Deny ==> r == Ok::<bool, PolicyEngineError>(
                    !regex_matches(rule.pattern@, v),
                )
            },
            None => r == Ok::<bool, PolicyEngineError>(rule.rule_type != RuleType::Require),
        },
{
}

/// A policy converted from its configuration keeps the configuration: the
/// same name, description and on/off switch, and one rule per configured
/// rule, in order, with that rule's fact, pattern, description and type
/// (its type name read in any case).  It fails exactly when some rule's type
/// name is none of the three.
pub proof fn law_conversion_keeps_configuration(c: PolicyConfig, r: Result<Policy, PolicyEngineError>)
    requires
        policy_conversion(c, r),
    ensures
        r is Ok <==> forall|i: int|
            0 <= i < c.rules@.len() ==> parse_rule_type(lowercase_of(#[trigger] c.rules@[i].rule_type@))
                is Some,
        r matches Ok(p) ==> {
            &&& p.name@ == c.name@
            &&& p.enabled == c.enabled
            &&& opt_text(p.description) == opt_text(c.description)
            &&& p.rules@.len() == c.rules@.len()
            &&& forall|i: int|
                0 <= i < c.rules@.len() ==> {
                    &&& #[trigger] p.rules@[i].fact@ == c.rules@[i].fact@
                    &&& p.rules@[i].pattern@ == c.rules@[i].pattern@
                    &&& opt_text(p.rules@[i].description) == opt_text(c.rules@[i].description)
                    &&& parse_rule_type(lowercase_of(c.rules@[i].rule_type@)) == Some(p.rules@[i].rule_type)
                }
        },
{
    if all_types_valid(c.rules@) {
        assert forall|i: int| 0 <= i < c.rules@.len() implies parse_rule_type(
            lowercase_of(#[trigger] c.rules@[i].rule_type@),
        ) is Some by {
            assert(configured_type(c.rules@[i]) is Some);
        }
    } else {
        let w = choose|i: int| 0 <= i < c.rules@.len() && !(#[trigger] configured_type(c.rules@[i]) is Some);
        assert(!(parse_rule_type(lowercase_of(c.rules@[w].rule_type@)) is Some));
    }
    if r is Ok {
        let p = r->Ok_0;
        assert forall|i: int| 0 <= i < c.rules@.len() implies {
            &&& #[trigger] p.rules@[i].fact@ == c.rules@[i].fact@
            &&& p.rules@[i].pattern@ == c.rules@[i].pattern@
            &&& opt_text(p.rules@[i].description) == opt_text(c.rules@[i].description)
            &&& parse_rule_type(lowercase_of(c.rules@[i].rule_type@)) == Some(p.rules@[i].rule_type)
        } by {
            assert(configured_type(c.rules@[i]) == Some(p.rules@[i].rule_type));
        }
    }
}

} // verus!
