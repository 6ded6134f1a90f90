//! The policy engine: a table of named policies (held in a `DashMap`),
//! evaluated against contexts one at a time, all together or by a list of
//! names.  Changes to the table go through `&mut self`, so that each change
//! is stated as a change of the engine's view; sharing an engine between
//! threads is left to its owner (behind a lock, say).
use vstd::prelude::*;

use dashmap::DashMap;

use super::context::EvaluationContext;
use super::error::PolicyEngineError;
use super::policy::{
    policy_evaluates, policy_failures, reports, reports_bad_pattern, EvaluablePolicy, Policy,
    PolicyView,
};
use super::result::{empty_metadata, PolicyResult, Severity, Violation};

verus! {

#[verifier::external_type_specification]
#[verifier::external_body]
#[verifier::reject_recursive_types(K)]
#[verifier::reject_recursive_types(V)]
#[verifier::reject_recursive_types(S)]
pub struct ExDashMap<K, V, S>(DashMap<K, V, S>);

/// What a table of policies holds: each key with the policy stored under it.
pub uninterp spec fn policy_table(table: DashMap<String, Policy>) -> Map<Seq<char>, PolicyView>;

/// A new, empty table (`DashMap::new`).
#[verifier::external_body]
fn table_new() -> (t: DashMap<String, Policy>)
    ensures
        policy_table(t).dom().is_empty(),
{
    DashMap::new()
}

/// `DashMap::insert`: stores `policy` under `name`, in place of what was
/// stored there.
#[verifier::external_body]
fn table_insert(table: &mut DashMap<String, Policy>, name: String, policy: Policy)
    ensures
        policy_table(*final(table)) == policy_table(*old(table)).insert(name@, policy@),
{
    table.insert(name, policy);
}

/// `DashMap::remove`: takes out the policy stored under `name`, if any, and
/// hands it back.
#[verifier::external_body]
fn table_remove(table: &mut DashMap<String, Policy>, name: &str) -> (r: Option<Policy>)
    ensures
        policy_table(*final(table)) == policy_table(*old(table)).remove(name@),
        match r {
            Some(p) => policy_table(*old(table)).contains_key(name@) && p@ == policy_table(
                *old(table),
            )[name@],
            None => !policy_table(*old(table)).contains_key(name@),
        },
{
    table.remove(name).map(|entry| entry.1)
}

/// `DashMap::get`, with a copy of the policy found under `name`.
#[verifier::external_body]
fn table_get(table: &DashMap<String, Policy>, name: &str) -> (r: Option<Policy>)
    ensures
        match r {
            Some(p) => policy_table(*table).contains_key(name@) && p@ == policy_table(*table)[name@],
            None => !policy_table(*table).contains_key(name@),
        },
{
    table.get(name).map(|entry| entry.value().clone())
}

/// `DashMap::len`: the number of stored policies.
#[verifier::external_body]
fn table_len(table: &DashMap<String, Policy>) -> (n: usize)
    ensures
        n == policy_table(*table).len(),
{
    table.len()
}

/// The keys and policies of `es`, as plain values.
pub open spec fn entry_views(es: Seq<(String, Policy)>) -> Seq<(Seq<char>, PolicyView)> {
    Seq::new(es.len(), |i: int| (es[i].0@, es[i].1@))
}

/// `es` lists every entry of `table` once, in some order.
pub open spec fn lists_table(
    es: Seq<(Seq<char>, PolicyView)>,
    table: Map<Seq<char>, PolicyView>,
) -> bool {
    &&& forall|i: int|
        0 <= i < es.len() ==> table.contains_key(#[trigger] es[i].0) && table[es[i].0] == es[i].1
    &&& forall|i: int, j: int| 0 <= i < j < es.len() ==> #[trigger] es[i].0 != #[trigger] es[j].0
    &&& forall|k: Seq<char>|
        #[trigger] table.contains_key(k) ==> exists|i: int| 0 <= i < es.len() && es[i].0 == k
}

/// `DashMap::iter`, with a copy of each key and policy.  The order in which
/// a hash map is walked is not stated: only that each entry comes once.
#[verifier::external_body]
fn table_entries(table: &DashMap<String, Policy>) -> (r: Vec<(String, Policy)>)
    ensures
        lists_table(entry_views(r@), policy_table(*table)),
{
    table.iter().map(|entry| (entry.key().clone(), entry.value().clone())).collect()
}

/// `r` is what evaluating the policy `p` against `ctx` gives.
pub open spec fn evaluation_of(
    p: PolicyView,
    ctx: EvaluationContext,
    r: Result<PolicyResult, PolicyEngineError>,
) -> bool {
    &&& r is Ok <==> policy_evaluates(p)
    &&& match r {
        Ok(res) => {
            &&& reports(res.violations@, p.name, policy_failures(p, ctx))
            &&& res.passed == (res.violations@.len() == 0)
        },
        Err(e) => p.enabled && reports_bad_pattern(p.rules, e),
    }
}

/// `vs` holds the violations of the policies of `es`, policy after policy,
/// each in rule order.
pub open spec fn reports_all(
    vs: Seq<Violation>,
    es: Seq<(Seq<char>, PolicyView)>,
    ctx: EvaluationContext,
) -> bool
    decreases es.len(),
{
    if es.len() == 0 {
        vs.len() == 0
    } else {
        let p = es.last().1;
        let k = policy_failures(p, ctx).len();
        &&& k <= vs.len()
        &&& reports_all(vs.take(vs.len() - k), es.drop_last(), ctx)
        &&& reports(vs.skip(vs.len() - k), p.name, policy_failures(p, ctx))
    }
}

/// `r` is what evaluating the policies of `es` in turn against `ctx` gives:
/// the error of the first that fails, or all their violations together.
pub open spec fn evaluation_of_all(
    es: Seq<(Seq<char>, PolicyView)>,
    ctx: EvaluationContext,
    r: Result<PolicyResult, PolicyEngineError>,
) -> bool {
    &&& r is Ok <==> forall|i: int| 0 <= i < es.len() ==> policy_evaluates(#[trigger] es[i].1)
    &&& match r {
        Ok(res) => {
            &&& reports_all(res.violations@, es, ctx)
            &&& res.passed == (res.violations@.len() == 0)
            &&& empty_metadata(res)
        },
        Err(e) => exists|i: int|
            0 <= i < es.len() && (forall|j: int| 0 <= j < i ==> policy_evaluates(#[trigger] es[j].1))
                && es[i].1.enabled && reports_bad_pattern(#[trigger] es[i].1.rules, e),
    }
}

/// Appending the violations of one more policy extends a combined report.
proof fn lemma_reports_all_push(
    vs: Seq<Violation>,
    ws: Seq<Violation>,
    es: Seq<(Seq<char>, PolicyView)>,
    e: (Seq<char>, PolicyView),
    ctx: EvaluationContext,
)
    requires
        reports_all(vs, es, ctx),
        reports(ws, e.1.name, policy_failures(e.1, ctx)),
    ensures
        reports_all(vs + ws, es.push(e), ctx),
{
    let all = vs + ws;
    let k = ws.len();
    assert(es.push(e).drop_last() =~= es);
    assert(all.take(all.len() - k) =~= vs);
    assert(all.skip(all.len() - k) =~= ws);
}

/// A thread-safe policy engine that evaluates contexts against named
/// policies.
#[derive(Debug)]
pub struct PolicyEngine {
    policies: DashMap<String, Policy>,
}

impl View for PolicyEngine {
    type V = Map<Seq<char>, PolicyView>;

    closed spec fn view(&self) -> Map<Seq<char>, PolicyView> {
        policy_table(self.policies)
    }
}

/// `m` with the policies of `ps` stored in turn, each under its name.
pub open spec fn insert_all(m: Map<Seq<char>, PolicyView>, ps: Seq<PolicyView>) -> Map<
    Seq<char>,
    PolicyView,
>
    decreases ps.len(),
{
    if ps.len() == 0 {
        m
    } else {
        insert_all(m, ps.drop_last()).insert(ps.last().name, ps.last())
    }
}

/// The policies of `names`, each with the name it was asked by.
pub open spec fn named_entries(names: Seq<&str>, m: Map<Seq<char>, PolicyView>) -> Seq<
    (Seq<char>, PolicyView),
> {
    Seq::new(names.len(), |i: int| (names[i]@, m[names[i]@]))
}

/// `m` with the policy under `name` switched on or off.
pub open spec fn with_switch(m: Map<Seq<char>, PolicyView>, name: Seq<char>, enabled: bool) -> Map<
    Seq<char>,
    PolicyView,
> {
    m.insert(name, PolicyView { enabled, ..m[name] })
}

impl PolicyEngine {
    /// Creates a new empty policy engine.
    pub fn new() -> (r: Self)
        ensures
            r@ == Map::<Seq<char>, PolicyView>::empty(),
    {
        let policies = table_new();
        assert(policy_table(policies) =~= Map::<Seq<char>, PolicyView>::empty());
        PolicyEngine { policies }
    }

    /// Creates a policy engine holding the given policies; a later policy
    /// takes the place of an earlier one of the same name.
    pub fn with_policies(policies: Vec<Policy>) -> (r: Self)
        ensures
            r@ == insert_all(Map::empty(), policies@.map_values(|p: Policy| p@)),
    {
        let mut engine = Self::new();
        let ghost views = policies@.map_values(|p: Policy| p@);
        let mut i: usize = 0;
        while i < policies.len()
            invariant
                i <= policies@.len(),
                views == policies@.map_values(|p: Policy| p@),
                engine@ == insert_all(Map::empty(), views.take(i as int)),
            decreases policies@.len() - i,
        {
            let p = policies[i].clone();
            engine.add_policy(p);
            assert(views.take(i + 1).drop_last() =~= views.take(i as int));
            i = i + 1;
        }
        assert(views.take(policies@.len() as int) =~= views);
        engine
    }

    /// Adds a policy to the engine, under its name, in place of any policy
    /// of that name.
    pub fn add_policy(&mut self, policy: Policy)
        ensures
            final(self)@ == old(self)@.insert(policy.name@, policy@),
    {
        let name = policy.name.clone();
        table_insert(&mut self.policies, name, policy);
    }

    /// Removes a policy from the engine by name, and hands it back.
    pub fn remove_policy(&mut self, name: &str) -> (r: Option<Policy>)
        ensures
            final(self)@ == old(self)@.remove(name@),
            match r {
                Some(p) => old(self)@.contains_key(name@) && p@ == old(self)@[name@],
                None => !old(self)@.contains_key(name@),
            },
    {
        table_remove(&mut self.policies, name)
    }

    /// Gets a copy of a policy by name.
    pub fn get_policy(&self, name: &str) -> (r: Option<Policy>)
        ensures
            match r {
                Some(p) => self@.contains_key(name@) && p@ == self@[name@],
                None => !self@.contains_key(name@),
            },
    {
        table_get(&self.policies, name)
    }

    /// Gets the number of policies in the engine.
    pub fn policy_count(&self) -> (n: usize)
        ensures
            n == self@.len(),
    {
        table_len(&self.policies)
    }

    /// Lists all policy names, each once, in no stated order.
    pub fn policy_names(&self) -> (r: Vec<String>)
        ensures
            forall|i: int| 0 <= i < r@.len() ==> self@.contains_key(#[trigger] r@[i]@),
            forall|i: int, j: int| 0 <= i < j < r@.len() ==> #[trigger] r@[i]@ != #[trigger] r@[j]@,
            forall|k: Seq<char>|
                #[trigger] self@.contains_key(k) ==> exists|i: int| 0 <= i < r@.len() && r@[i]@ == k,
    {
        let entries = table_entries(&self.policies);
        let ghost es = entry_views(entries@);
        let mut names: Vec<String> = Vec::new();
        let mut i: usize = 0;
        while i < entries.len()
            invariant
                i <= entries@.len(),
                es == entry_views(entries@),
                lists_table(es, self@),
                names@.len() == i,
                forall|j: int| 0 <= j < i ==> #[trigger] names@[j]@ == es[j].0,
            decreases entries@.len() - i,
        {
            names.push(entries[i].0.clone());
            i = i + 1;
        }
        assert forall|k: Seq<char>| #[trigger] self@.contains_key(k) implies exists|i: int|
            0 <= i < names@.len() && names@[i]@ == k by {
            let w = choose|i: int| 0 <= i < es.len() && es[i].0 == k;
            assert(names@[w]@ == k);
        }
        assert forall|a: int, b: int| 0 <= a < b < names@.len() implies #[trigger] names@[a]@
            != #[trigger] names@[b]@ by {
            assert(es[a].0 != es[b].0);
        }
        assert forall|a: int| 0 <= a < names@.len() implies self@.contains_key(
            #[trigger] names@[a]@,
        ) by {
            assert(self@.contains_key(es[a].0));
        }
        names
    }

    /// Evaluates a context against a single policy by name; a name that no
    /// policy has is an error.
    pub fn evaluate_policy(&self, policy_name: &str, context: &EvaluationContext) -> (r: Result<
        PolicyResult,
        PolicyEngineError,
    >)
        ensures
            !self@.contains_key(policy_name@) ==> (r matches Err(
                PolicyEngineError::PolicyNotFound { name },
            ) && name@ == policy_name@),
            self@.contains_key(policy_name@) ==> evaluation_of(
                self@[policy_name@],
                *context,
                r,
            ),
    {
        match self.get_policy(policy_name) {
            Some(policy) => policy.evaluate(context),
            None => Err(PolicyEngineError::PolicyNotFound { name: String::from_str(policy_name) }),
        }
    }

    /// Evaluates a context against all policies in the engine, taken in the
    /// order in which the table is walked; violations are combined.
    pub fn evaluate_all(&self, context: &EvaluationContext) -> (r: Result<
        PolicyResult,
        PolicyEngineError,
    >)
        ensures
            r is Ok <==> forall|k: Seq<char>|
                #[trigger] self@.contains_key(k) ==> policy_evaluates(self@[k]),
            exists|es: Seq<(Seq<char>, PolicyView)>|
                lists_table(es, self@) && evaluation_of_all(es, *context, r),
    {
        let entries = table_entries(&self.policies);
        let r = evaluate_entries(&entries, context);
        proof {
            let es = entry_views(entries@);
            assert(lists_table(es, self@));
            if r is Ok {
                assert forall|k: Seq<char>| #[trigger] self@.contains_key(k) implies policy_evaluates(
                    self@[k],
                ) by {
                    let w = choose|i: int| 0 <= i < es.len() && es[i].0 == k;
                    assert(policy_evaluates(es[w].1));
                }
            } else {
                let w = choose|i: int| 0 <= i < es.len() && !policy_evaluates(#[trigger] es[i].1);
                assert(self@.contains_key(es[w].0));
            }
        }
        r
    }

    /// Evaluates a context against the policies named in `policy_names`, in
    /// that order; violations are combined, and the first name without a
    /// policy, or the first policy whose evaluation fails, ends it with an
    /// error.
    pub fn evaluate_subset(&self, policy_names: &[&str], context: &EvaluationContext) -> (r: Result<
        PolicyResult,
        PolicyEngineError,
    >)
        ensures
            r is Ok <==> forall|i: int|
                0 <= i < policy_names@.len() ==> self@.contains_key(#[trigger] policy_names@[i]@)
                    && policy_evaluates(self@[policy_names@[i]@]),
            match r {
                Ok(res) => {
                    &&& reports_all(
                        res.violations@,
                        named_entries(policy_names@, self@),
                        *context,
                    )
                    &&& res.passed == (res.violations@.len() == 0)
                    &&& empty_metadata(res)
                },
                Err(e) => exists|i: int|
                    0 <= i < policy_names@.len() && (forall|j: int|
                        0 <= j < i ==> self@.contains_key(#[trigger] policy_names@[j]@)
                            && policy_evaluates(self@[policy_names@[j]@])) && if self@.contains_key(
                        #[trigger] policy_names@[i]@,
                    ) {
                        let p = self@[policy_names@[i]@];
                        p.enabled && reports_bad_pattern(p.rules, e)
                    } else {
                        e matches PolicyEngineError::PolicyNotFound { name } && name@
                            == policy_names@[i]@
                    },
            },
    {
        let ghost es = named_entries(policy_names@, self@);
        let mut combined = PolicyResult::passed();
        let mut i: usize = 0;
        while i < policy_names.len()
            invariant
                i <= policy_names@.len(),
                es == named_entries(policy_names@, self@),
                forall|j: int|
                    0 <= j < i ==> self@.contains_key(#[trigger] policy_names@[j]@)
                        && policy_evaluates(self@[policy_names@[j]@]),
                reports_all(combined.violations@, es.take(i as int), *context),
                combined.passed == (combined.violations@.len() == 0),
                empty_metadata(combined),
            decreases policy_names@.len() - i,
        {
            let name = policy_names[i];
            match self.evaluate_policy(name, context) {
                Err(e) => {
                    proof {
                        if self@.contains_key(policy_names@[i as int]@) {
                            assert(!policy_evaluates(self@[policy_names@[i as int]@]));
                        }
                    }
                    return Err(e);
                },
                Ok(res) => {
                    let ghost before = combined.violations@;
                    proof {
                        if res.violations@.len() > 0 {
                            assert(res.violations@[0].severity == Severity::Error);
                        }
                    }
                    merge_violations(&mut combined, res.violations);
                    proof {
                        assert(es.take(i + 1) =~= es.take(i as int).push(es[i as int]));
                        lemma_reports_all_push(
                            before,
                            res.violations@,
                            es.take(i as int),
                            es[i as int],
                            *context,
                        );
                    }
                },
            }
            i = i + 1;
        }
        assert(es.take(policy_names@.len() as int) =~= es);
        Ok(combined)
    }

    /// Enables a policy; a name that no policy has is an error.
    pub fn enable_policy(&mut self, name: &str) -> (r: Result<(), PolicyEngineError>)
        ensures
            old(self)@.contains_key(name@) ==> r is Ok && final(self)@ == with_switch(
                old(self)@,
                name@,
                true,
            ),
            !old(self)@.contains_key(name@) ==> final(self)@ == old(self)@ && (r matches Err(
                PolicyEngineError::PolicyNotFound { name: n },
            ) && n@ == name@),
    {
        self.switch_policy(name, true)
    }

    /// Disables a policy; a name that no policy has is an error.
    pub fn disable_policy(&mut self, name: &str) -> (r: Result<(), PolicyEngineError>)
        ensures
            old(self)@.contains_key(name@) ==> r is Ok && final(self)@ == with_switch(
                old(self)@,
                name@,
                false,
            ),
            !old(self)@.contains_key(name@) ==> final(self)@ == old(self)@ && (r matches Err(
                PolicyEngineError::PolicyNotFound { name: n },
            ) && n@ == name@),
    {
        self.switch_policy(name, false)
    }

    /// Switches the policy under `name` on or off.
    fn switch_policy(&mut self, name: &str, enabled: bool) -> (r: Result<(), PolicyEngineError>)
        ensures
            old(self)@.contains_key(name@) ==> r is Ok && final(self)@ == with_switch(
                old(self)@,
                name@,
                enabled,
            ),
            !old(self)@.contains_key(name@) ==> final(self)@ == old(self)@ && (r matches Err(
                PolicyEngineError::PolicyNotFound { name: n },
            ) && n@ == name@),
    {
        match table_get(&self.policies, name) {
            Some(policy) => {
                let switched = policy.set_enabled(enabled);
                table_insert(&mut self.policies, String::from_str(name), switched);
                Ok(())
            },
            None => Err(PolicyEngineError::PolicyNotFound { name: String::from_str(name) }),
        }
    }
}

/// Appends the violations of one result to a combined result, in order.
fn merge_violations(combined: &mut PolicyResult, violations: Vec<Violation>)
    ensures
        final(combined).violations@ == old(combined).violations@ + violations@,
        final(combined).passed == (old(combined).passed && forall|i: int|
            0 <= i < violations@.len() ==> #[trigger] violations@[i].severity
                != Severity::Error),
        final(combined).metadata == old(combined).metadata,
{
    let rest = violations;
    let ghost all = violations@;
    let mut i: usize = 0;
    while i < rest.len()
        invariant
            rest@ == all,
            i <= all.len(),
            combined.violations@ == old(combined).violations@ + all.take(i as int),
            combined.passed == (old(combined).passed && forall|j: int|
                0 <= j < i ==> #[trigger] all[j].severity != Severity::Error),
            combined.metadata == old(combined).metadata,
        decreases all.len() - i,
    {
        let v = rest[i].clone();
        combined.add_violation(v);
        assert(all.take(i + 1) =~= all.take(i as int).push(all[i as int]));
        i = i + 1;
    }
    assert(all.take(all.len() as int) =~= all);
}

/// Evaluates a context against each policy of `entries` in turn, combining
/// their violations; the first policy whose evaluation fails ends it with
/// its error.
pub fn evaluate_entries(entries: &Vec<(String, Policy)>, context: &EvaluationContext) -> (r: Result<
    PolicyResult,
    PolicyEngineError,
>)
    ensures
        evaluation_of_all(entry_views(entries@), *context, r),
{
    let ghost es = entry_views(entries@);
    let mut combined = PolicyResult::passed();
    let mut i: usize = 0;
    while i < entries.len()
        invariant
            i <= entries@.len(),
            es == entry_views(entries@),
            forall|j: int| 0 <= j < i ==> policy_evaluates(#[trigger] es[j].1),
            reports_all(combined.violations@, es.take(i as int), *context),
            combined.passed == (combined.violations@.len() == 0),
            empty_metadata(combined),
        decreases entries@.len() - i,
    {
        let policy = &entries[i].1;
        match policy.evaluate(context) {
            Err(e) => {
                assert(es[i as int].1 == policy@);
                return Err(e);
            },
            Ok(res) => {
                let ghost before = combined.violations@;
                proof {
                    if res.violations@.len() > 0 {
                        assert(res.violations@[0].severity == Severity::Error);
                    }
                }
                merge_violations(&mut combined, res.violations);
                proof {
                    assert(es[i as int].1 == policy@);
                    assert(es.take(i + 1) =~= es.take(i as int).push(es[i as int]));
                    lemma_reports_all_push(
                        before,
                        res.violations@,
                        es.take(i as int),
                        es[i as int],
                        *context,
                    );
                }
            },
        }
        i = i + 1;
    }
    assert(es.take(entries@.len() as int) =~= es);
    Ok(combined)
}

impl Default for PolicyEngine {
    fn default() -> (r: Self)
        ensures
            r@ == Map::<Seq<char>, PolicyView>::empty(),
    {
        Self::new()
    }
}

/// Configuration for policy engine persistence.
#[derive(Debug, Clone)]
pub struct PolicyEngineConfig {
    /// Policies to load.
    pub policies: Vec<Policy>,
}

} // verus!
