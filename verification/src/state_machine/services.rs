//! Domain services: transition validation and ready-made guards.
use vstd::prelude::*;

use super::entities::{
    check_transition, collect_window, is_invalid_transition, skipped_between, State,
    StateMachineConfig, StateMachineError, TransitionGuard, backward_reason, skip_reason,
};
use vstd::std_specs::cmp::PartialEqSpec;

verus! {

/// Result of a validation check.
#[derive(Debug, Clone)]
pub struct ValidationResult<S: State> {
    pub allowed: bool,
    pub skipped: Vec<S>,
    pub will_skip: bool,
}

/// What validating a move from `current` to `target` under `config` gives:
/// the move is accepted exactly when it goes forward and, where skipping is
/// off, passes over no state; an accepted move lists the states passed over.
pub open spec fn validation_outcome<S: State>(
    config: StateMachineConfig,
    current: S,
    target: S,
    r: Result<ValidationResult<S>, StateMachineError>,
) -> bool {
    match r {
        Ok(v) => {
            &&& current.spec_ordinal() < target.spec_ordinal()
            &&& (config.allow_skip || skipped_between(current, target).len() == 0)
            &&& v.allowed
            &&& v.skipped@ == skipped_between(current, target)
            &&& v.will_skip == (v.skipped@.len() > 0)
        },
        Err(e) => {
            ||| (target.spec_ordinal() <= current.spec_ordinal() && is_invalid_transition(
                e,
                current,
                target,
                |s: Seq<char>| s == backward_reason(),
            ))
            ||| (current.spec_ordinal() < target.spec_ordinal() && !config.allow_skip
                && skipped_between(current, target).len() > 0 && is_invalid_transition(
                e,
                current,
                target,
                |s: Seq<char>| skip_reason(skipped_between(current, target), s),
            ))
        },
    }
}

/// Whether a move from `current` to `target` is valid: forward, and where
/// skipping is off, over no state.
pub open spec fn valid_move<S: State>(current: S, target: S, allow_skip: bool) -> bool {
    current.spec_ordinal() < target.spec_ordinal() && (allow_skip || skipped_between(
        current,
        target,
    ).len() == 0)
}

/// The states of `all`, in order, to which a move from `current` is valid.
pub open spec fn valid_targets<S: State>(all: Seq<S>, current: S, allow_skip: bool) -> Seq<S>
    decreases all.len(),
{
    if all.len() == 0 {
        Seq::empty()
    } else {
        let prev = valid_targets(all.drop_last(), current, allow_skip);
        if valid_move(current, all.last(), allow_skip) {
            prev.push(all.last())
        } else {
            prev
        }
    }
}

/// Membership in the valid targets is exactly validity of the move.
pub proof fn lemma_valid_targets_contains<S: State>(
    all: Seq<S>,
    current: S,
    allow_skip: bool,
    s: S,
)
    ensures
        valid_targets(all, current, allow_skip).contains(s) <==> (all.contains(s) && valid_move(
            current,
            s,
            allow_skip,
        )),
    decreases all.len(),
{
    broadcast use vstd::seq_lib::group_seq_properties;

    if all.len() > 0 {
        let prev = all.drop_last();
        lemma_valid_targets_contains(prev, current, allow_skip, s);
        assert(all =~= prev.push(all.last()));
    }
}

/// The states of `all`, in order, to which a move from `current` (of
/// ordinal `cur`) is valid.
fn collect_valid<S: State>(all: Vec<S>, current: &S, cur: u32, allow_skip: bool) -> (r: Vec<S>)
    requires
        cur == current.spec_ordinal(),
    ensures
        r@ == valid_targets(all@, *current, allow_skip),
    decreases all@.len(),
{
    let mut rest = all;
    let ghost whole = rest@;
    match rest.pop() {
        None => Vec::new(),
        Some(last) => {
            assert(rest@ == whole.drop_last());
            let o = last.ordinal();
            let ok = if cur < o {
                if allow_skip {
                    true
                } else {
                    let between = collect_window(S::all_states(), cur, Some(o));
                    between.len() == 0
                }
            } else {
                false
            };
            let mut prev = collect_valid(rest, current, cur, allow_skip);
            if ok {
                prev.push(last);
            }
            prev
        },
    }
}

/// Service for validating state transitions without performing them.
pub struct TransitionValidator<S: State> {
    config: StateMachineConfig,
    marker: core::marker::PhantomData<S>,
}

impl<S: State> TransitionValidator<S> {
    /// The configuration the validator checks against.
    pub closed spec fn spec_config(&self) -> StateMachineConfig {
        self.config
    }

    pub fn new(config: StateMachineConfig) -> (r: Self)
        ensures
            r.spec_config() == config,
    {
        TransitionValidator { config, marker: core::marker::PhantomData }
    }

    /// Validate whether a transition is possible without performing it.
    pub fn validate(&self, current: &S, target: &S) -> (r: Result<
        ValidationResult<S>,
        StateMachineError,
    >)
        ensures
            validation_outcome(self.spec_config(), *current, *target, r),
    {
        match check_transition(current, target, &self.config) {
            Err(e) => Err(e),
            Ok(skipped) => {
                let will_skip = skipped.len() > 0;
                Ok(ValidationResult { allowed: true, skipped, will_skip })
            },
        }
    }

    /// All valid next states from `current`, in lifecycle order: the states
    /// to which `validate` accepts a move (later states, and where skipping
    /// is off, only those with no state in between).
    pub fn valid_next_states(&self, current: &S) -> (r: Vec<S>)
        ensures
            r@ == valid_targets(S::spec_all_states(), *current, self.spec_config().allow_skip),
    {
        let all = S::all_states();
        collect_valid(all, current, current.ordinal(), self.config.allow_skip)
    }
}

/// Guard that always allows transitions.
#[derive(Debug, Clone, Copy)]
pub struct AllowAllGuard;

impl<S: State> TransitionGuard<S> for AllowAllGuard {
    /// Every move is approved.
    open spec fn spec_check(&self, from: S, to: S, verdict: Result<(), String>) -> bool {
        verdict is Ok
    }

    fn check(&self, _from: &S, _to: &S) -> (r: Result<(), String>) {
        Ok(())
    }
}

/// Guard that never allows transitions.
#[derive(Debug, Clone, Copy)]
pub struct DenyAllGuard;

impl<S: State> TransitionGuard<S> for DenyAllGuard {
    /// Every move is rejected, with the reason "transitions are denied".
    open spec fn spec_check(&self, from: S, to: S, verdict: Result<(), String>) -> bool {
        verdict matches Err(reason) && reason@ == "transitions are denied"@
    }

    fn check(&self, _from: &S, _to: &S) -> (r: Result<(), String>) {
        proof {
            reveal_strlit("transitions are denied");
        }
        Err(String::from_str("transitions are denied"))
    }
}

/// Guard that allows transitions to the listed target states only.
#[derive(Debug, Clone)]
pub struct AllowStatesGuard<S: State> {
    allowed_targets: Vec<S>,
}

impl<S: State> AllowStatesGuard<S> {
    /// The states a transition may go to.
    pub closed spec fn spec_allowed(&self) -> Seq<S> {
        self.allowed_targets@
    }

    pub fn new(targets: Vec<S>) -> (r: Self)
        ensures
            r.spec_allowed() == targets@,
    {
        AllowStatesGuard { allowed_targets: targets }
    }
}

impl<S: State + PartialEq> TransitionGuard<S> for AllowStatesGuard<S> {
    /// Allows the transition exactly when `to` equals one of the allowed
    /// targets (by the states' own `==`); the rejection reason is
    /// "state " followed by the display string of `to` and " is not allowed".
    open spec fn spec_check(&self, from: S, to: S, verdict: Result<(), String>) -> bool {
        &&& S::obeys_eq_spec() ==> (verdict is Ok <==> exists|i: int|
            0 <= i < self.spec_allowed().len() && #[trigger] self.spec_allowed()[i].eq_spec(&to))
        &&& verdict matches Err(reason) ==> exists|label: String|
            vstd::string::to_string_from_display_ensures::<S>(&to, label) && reason@ == "state "@
                + label@ + " is not allowed"@
    }

    fn check(&self, _from: &S, to: &S) -> (r: Result<(), String>) {
        let mut i: usize = 0;
        while i < self.allowed_targets.len()
            invariant
                i <= self.allowed_targets.len(),
                S::obeys_eq_spec() ==> forall|j: int|
                    0 <= j < i ==> !#[trigger] self.allowed_targets@[j].eq_spec(to),
            decreases self.allowed_targets.len() - i,
        {
            if self.allowed_targets[i] == *to {
                assert(S::obeys_eq_spec() ==> self.spec_allowed()[i as int].eq_spec(to));
                return Ok(());
            }
            i = i + 1;
        }
        let label = to.to_string();
        let mut reason = String::from_str("state ");
        reason.append(label.as_str());
        reason.append(" is not allowed");
        proof {
            reveal_strlit("state ");
            reveal_strlit(" is not allowed");
        }
        assert(vstd::string::to_string_from_display_ensures::<S>(to, label) && reason@ == "state "@
            + label@ + " is not allowed"@);
        Err(reason)
    }
}

} // verus!
