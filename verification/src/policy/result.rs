//! Results of policy evaluation and the violations they report.
use vstd::prelude::*;

use super::context::json_object_keys;
use crate::common::text::{decimal, u64_to_decimal};

verus! {

/// Severity levels for policy violations, from least to most severe.
#[derive(Debug, Clone, Copy, PartialEq, Eq, PartialOrd, Ord, Structural)]
pub enum Severity {
    /// Informational message, no action required.
    Info,
    /// Warning: recommended action to comply.
    Warning,
    /// Error: violation of policy, must be addressed.
    Error,
}

/// The name of a severity.
pub open spec fn severity_name(s: Severity) -> Seq<char> {
    match s {
        Severity::Info => "info"@,
        Severity::Warning => "warning"@,
        Severity::Error => "error"@,
    }
}

/// The rank of a severity: info below warning below error.
pub open spec fn severity_rank(s: Severity) -> int {
    match s {
        Severity::Info => 0,
        Severity::Warning => 1,
        Severity::Error => 2,
    }
}

impl Severity {
    /// The name of the severity.
    pub fn as_str(&self) -> (r: &'static str)
        ensures
            r@ == severity_name(*self),
    {
        proof {
            reveal_strlit("info");
            reveal_strlit("warning");
            reveal_strlit("error");
        }
        match self {
            Severity::Info => "info",
            Severity::Warning => "warning",
            Severity::Error => "error",
        }
    }

    /// The rank of the severity (info 0, warning 1, error 2).
    pub fn rank(&self) -> (r: u8)
        ensures
            r as int == severity_rank(*self),
    {
        match self {
            Severity::Info => 0,
            Severity::Warning => 1,
            Severity::Error => 2,
        }
    }
}

/// A policy violation: a rule that was not satisfied.
#[derive(Debug)]
pub struct Violation {
    /// The name of the policy that was violated.
    pub policy: String,
    /// The rule type that was violated (Allow, Deny, Require).
    pub rule_type: String,
    /// The condition or pattern that failed.
    pub condition: String,
    /// The severity of this violation.
    pub severity: Severity,
    /// A detailed message about the violation.
    pub message: String,
}

impl Clone for Violation {
    fn clone(&self) -> (r: Self)
        ensures
            r == *self,
    {
        Violation {
            policy: self.policy.clone(),
            rule_type: self.rule_type.clone(),
            condition: self.condition.clone(),
            severity: self.severity,
            message: self.message.clone(),
        }
    }
}

impl Violation {
    /// Creates a new violation.
    pub fn new(
        policy: &str,
        rule_type: &str,
        condition: &str,
        severity: Severity,
        message: &str,
    ) -> (r: Self)
        ensures
            r.policy@ == policy@,
            r.rule_type@ == rule_type@,
            r.condition@ == condition@,
            r.severity == severity,
            r.message@ == message@,
    {
        Violation {
            policy: String::from_str(policy),
            rule_type: String::from_str(rule_type),
            condition: String::from_str(condition),
            severity,
            message: String::from_str(message),
        }
    }
}

/// No violation is of error level.
pub open spec fn no_errors(vs: Seq<Violation>) -> bool {
    forall|i: int| 0 <= i < vs.len() ==> #[trigger] vs[i].severity != Severity::Error
}

/// The violations of `vs` of severity `sev`, in order.
pub open spec fn of_severity(vs: Seq<Violation>, sev: Severity) -> Seq<Violation>
    decreases vs.len(),
{
    if vs.len() == 0 {
        Seq::empty()
    } else {
        let prev = of_severity(vs.drop_last(), sev);
        if vs.last().severity == sev {
            prev.push(vs.last())
        } else {
            prev
        }
    }
}

/// No violation of a severity is left out: the filtered list is empty
/// exactly when none has that severity.
pub proof fn lemma_of_severity_empty(vs: Seq<Violation>, sev: Severity)
    ensures
        of_severity(vs, sev).len() == 0 <==> forall|i: int|
            0 <= i < vs.len() ==> #[trigger] vs[i].severity != sev,
    decreases vs.len(),
{
    if vs.len() > 0 {
        let p = vs.drop_last();
        lemma_of_severity_empty(p, sev);
        assert forall|i: int| 0 <= i < p.len() implies p[i] == vs[i] by {}
    }
}

/// An empty JSON object, `serde_json::Value::Object` of
/// `serde_json::Map::new`: an object with no member.
#[verifier::external_body]
fn empty_json_object() -> (r: serde_json::Value)
    ensures
        json_object_keys(r) == Some(Set::<Seq<char>>::empty()),
{
    serde_json::Value::Object(serde_json::Map::new())
}

/// The metadata of `r` is an empty JSON object.
pub open spec fn empty_metadata(r: PolicyResult) -> bool {
    json_object_keys(r.metadata) == Some(Set::<Seq<char>>::empty())
}

/// The result of policy evaluation.
#[derive(Debug, Clone)]
pub struct PolicyResult {
    /// Whether all policies were satisfied (no error-level violations).
    pub passed: bool,
    /// List of all violations.
    pub violations: Vec<Violation>,
    /// Metadata about evaluation.
    pub metadata: serde_json::Value,
}

/// Collects references to the violations of one severity, in order.
fn collect_severity(vs: &Vec<Violation>, sev: Severity) -> (r: Vec<&Violation>)
    ensures
        r@.map_values(|v: &Violation| *v) == of_severity(vs@, sev),
{
    let mut out: Vec<&Violation> = Vec::new();
    let mut i: usize = 0;
    while i < vs.len()
        invariant
            i <= vs@.len(),
            out@.map_values(|v: &Violation| *v) == of_severity(vs@.take(i as int), sev),
        decreases vs@.len() - i,
    {
        assert(vs@.take(i + 1).drop_last() =~= vs@.take(i as int));
        let ghost before = out@;
        if vs[i].severity == sev {
            out.push(&vs[i]);
            assert(out@.map_values(|v: &Violation| *v) =~= before.map_values(|v: &Violation| *v).push(
                vs@[i as int],
            ));
        }
        i = i + 1;
    }
    assert(vs@.take(vs@.len() as int) =~= vs@);
    out
}

impl Default for PolicyResult {
    /// The same as `passed`.
    fn default() -> (r: Self)
        ensures
            r.passed,
            r.violations@.len() == 0,
            empty_metadata(r),
    {
        Self::passed()
    }
}

impl PolicyResult {
    /// A passing result with no violations.
    pub fn passed() -> (r: Self)
        ensures
            r.passed,
            r.violations@.len() == 0,
            empty_metadata(r),
    {
        PolicyResult { passed: true, violations: Vec::new(), metadata: empty_json_object() }
    }

    /// A result holding `violations`; it passes when none is of error level.
    pub fn with_violations(violations: Vec<Violation>) -> (r: Self)
        ensures
            r.violations@ == violations@,
            r.passed == no_errors(violations@),
            empty_metadata(r),
    {
        let mut passed = true;
        let mut i: usize = 0;
        while i < violations.len()
            invariant
                i <= violations@.len(),
                passed == (forall|j: int|
                    0 <= j < i ==> #[trigger] violations@[j].severity != Severity::Error),
            decreases violations@.len() - i,
        {
            if violations[i].severity == Severity::Error {
                passed = false;
            }
            i = i + 1;
        }
        PolicyResult { passed, violations, metadata: empty_json_object() }
    }

    /// Adds a violation; an error-level one makes the result fail.
    pub fn add_violation(&mut self, violation: Violation)
        ensures
            final(self).violations@ == old(self).violations@.push(violation),
            final(self).passed == (old(self).passed && violation.severity != Severity::Error),
            final(self).metadata == old(self).metadata,
    {
        if violation.severity == Severity::Error {
            self.passed = false;
        }
        self.violations.push(violation);
    }

    /// The error-level violations, in order.
    pub fn errors(&self) -> (r: Vec<&Violation>)
        ensures
            r@.map_values(|v: &Violation| *v) == of_severity(self.violations@, Severity::Error),
    {
        collect_severity(&self.violations, Severity::Error)
    }

    /// The warning-level violations, in order.
    pub fn warnings(&self) -> (r: Vec<&Violation>)
        ensures
            r@.map_values(|v: &Violation| *v) == of_severity(self.violations@, Severity::Warning),
    {
        collect_severity(&self.violations, Severity::Warning)
    }

    /// The info-level violations, in order.
    pub fn infos(&self) -> (r: Vec<&Violation>)
        ensures
            r@.map_values(|v: &Violation| *v) == of_severity(self.violations@, Severity::Info),
    {
        collect_severity(&self.violations, Severity::Info)
    }

    /// Whether some violation is of error level.
    pub fn has_errors(&self) -> (r: bool)
        ensures
            r == !no_errors(self.violations@),
    {
        let e = self.errors();
        proof {
            lemma_of_severity_empty(self.violations@, Severity::Error);
        }
        assert(e@.len() == e@.map_values(|v: &Violation| *v).len());
        e.len() > 0
    }

    /// Whether some violation is of warning level.
    pub fn has_warnings(&self) -> (r: bool)
        ensures
            r == exists|i: int|
                0 <= i < self.violations@.len() && #[trigger] self.violations@[i].severity
                    == Severity::Warning,
    {
        let w = self.warnings();
        proof {
            lemma_of_severity_empty(self.violations@, Severity::Warning);
        }
        assert(w@.len() == w@.map_values(|v: &Violation| *v).len());
        w.len() > 0
    }

    /// "Policy evaluation: E errors, W warnings, I infos", with the counts of
    /// violations of each level in decimal.
    pub fn summary(&self) -> (r: String)
        ensures
            r@ == "Policy evaluation: "@ + decimal(
                of_severity(self.violations@, Severity::Error).len(),
            ) + " errors, "@ + decimal(of_severity(self.violations@, Severity::Warning).len())
                + " warnings, "@ + decimal(of_severity(self.violations@, Severity::Info).len())
                + " infos"@,
    {
        let e = self.errors();
        let w = self.warnings();
        let i = self.infos();
        assert(e@.len() == e@.map_values(|v: &Violation| *v).len());
        assert(w@.len() == w@.map_values(|v: &Violation| *v).len());
        assert(i@.len() == i@.map_values(|v: &Violation| *v).len());
        let mut out = String::from_str("Policy evaluation: ");
        out.append(u64_to_decimal(e.len() as u64).as_str());
        out.append(" errors, ");
        out.append(u64_to_decimal(w.len() as u64).as_str());
        out.append(" warnings, ");
        out.append(u64_to_decimal(i.len() as u64).as_str());
        out.append(" infos");
        out
    }
}

} // verus!
