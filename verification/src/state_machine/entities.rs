//! Core entities of the state machine: the `State` trait, transition records,
//! the machine itself and its error type.
use vstd::prelude::*;

use crate::common::clock::{chrono_represents, utc_now, Timestamp};
use crate::common::text::{joined, texts};

verus! {

/// Errors for state machine operations.
#[derive(Debug)]
pub enum StateMachineError {
    InvalidTransition { from: String, to: String, reason: String },
    GuardRejected { from: String, to: String, reason: String },
}

/// The message of a state machine error.
pub open spec fn state_machine_error_text(e: StateMachineError) -> Seq<char> {
    match e {
        StateMachineError::InvalidTransition { from, to, reason } => "invalid transition from "@
            + from@ + " to "@ + to@ + ": "@ + reason@,
        StateMachineError::GuardRejected { from, to, reason } => "guard rejected transition from "@
            + from@ + " to "@ + to@ + ": "@ + reason@,
    }
}

impl StateMachineError {
    /// The message of the error, as its display form reads.
    pub fn message(&self) -> (r: String)
        ensures
            r@ == state_machine_error_text(*self),
    {
        let (head, from, to, reason) = match self {
            StateMachineError::InvalidTransition { from, to, reason } => (
                "invalid transition from ",
                from,
                to,
                reason,
            ),
            StateMachineError::GuardRejected { from, to, reason } => (
                "guard rejected transition from ",
                from,
                to,
                reason,
            ),
        };
        let mut out = String::from_str(head);
        out.append(from.as_str());
        out.append(" to ");
        out.append(to.as_str());
        out.append(": ");
        out.append(reason.as_str());
        out
    }
}

/// A state in a finite state machine.  Implement this for your state enum.
///
/// `ordinal` orders the lifecycle: a machine only ever moves to a state of a
/// strictly greater ordinal.  `all_states` lists every state in lifecycle
/// order.  A verified implementation states both in `spec_ordinal` and
/// `spec_all_states`.
pub trait State: core::fmt::Display + Clone + Sized {
    /// The ordinal of the state, as `ordinal` returns it.  A verified
    /// implementation defines it; the default only lets implementations
    /// written outside Verus compile, and fixes no value.
    open spec fn spec_ordinal(&self) -> u32 {
        arbitrary()
    }

    /// Every state in lifecycle order, as `all_states` returns them.  As
    /// for `spec_ordinal`, the default fixes nothing.
    open spec fn spec_all_states() -> Seq<Self> {
        arbitrary()
    }

    /// Ordered index for determining valid forward transitions.
    fn ordinal(&self) -> (r: u32)
        ensures
            r == self.spec_ordinal(),
    ;

    /// All states in lifecycle order.
    fn all_states() -> (r: Vec<Self>)
        ensures
            r@ == Self::spec_all_states(),
    ;
}

/// A guard that can approve or reject a transition: `Ok(())` allows it,
/// `Err(reason)` rejects it.
pub trait TransitionGuard<S: State> {
    /// Whether `verdict` is an answer the guard may give for a move from
    /// `from` to `to`.  The default claims nothing of the answer.
    open spec fn spec_check(&self, from: S, to: S, verdict: Result<(), String>) -> bool {
        true
    }

    /// Approves (`Ok(())`) or rejects (`Err(reason)`) a move from `from` to
    /// `to`.
    fn check(&self, from: &S, to: &S) -> (r: Result<(), String>)
        ensures
            self.spec_check(*from, *to, r),
    ;
}

/// The states of `all`, in order, whose ordinal lies strictly between `lo`
/// and `hi`.
pub open spec fn ordinal_window<S: State>(all: Seq<S>, lo: int, hi: int) -> Seq<S>
    decreases all.len(),
{
    if all.len() == 0 {
        Seq::empty()
    } else {
        let prev = ordinal_window(all.drop_last(), lo, hi);
        let s = all.last();
        if lo < s.spec_ordinal() && s.spec_ordinal() < hi {
            prev.push(s)
        } else {
            prev
        }
    }
}

/// The states that a transition from `from` to `to` passes over.
pub open spec fn skipped_between<S: State>(from: S, to: S) -> Seq<S> {
    ordinal_window(S::spec_all_states(), from.spec_ordinal() as int, to.spec_ordinal() as int)
}

/// The states of a greater ordinal than `from`, in lifecycle order.
pub open spec fn states_after<S: State>(from: S) -> Seq<S> {
    ordinal_window(S::spec_all_states(), from.spec_ordinal() as int, u32::MAX as int + 1)
}

/// Membership in a window is exactly the ordinal condition.
pub proof fn lemma_window_contains<S: State>(all: Seq<S>, lo: int, hi: int, s: S)
    ensures
        ordinal_window(all, lo, hi).contains(s) <==> (all.contains(s) && lo < s.spec_ordinal()
            && s.spec_ordinal() < hi),
    decreases all.len(),
{
    broadcast use vstd::seq_lib::group_seq_properties;

    if all.len() > 0 {
        let prev = all.drop_last();
        lemma_window_contains(prev, lo, hi, s);
        assert(all =~= prev.push(all.last()));
    }
}

/// A window is empty exactly when no state of `all` lies in it.
pub proof fn lemma_window_empty<S: State>(all: Seq<S>, lo: int, hi: int)
    ensures
        ordinal_window(all, lo, hi).len() == 0 <==> (forall|i: int|
            0 <= i < all.len() ==> !(lo < #[trigger] all[i].spec_ordinal() && all[i].spec_ordinal()
                < hi)),
    decreases all.len(),
{
    if all.len() > 0 {
        let prev = all.drop_last();
        lemma_window_empty(prev, lo, hi);
        assert forall|i: int| 0 <= i < prev.len() implies prev[i] == all[i] by {}
    }
}

/// The states of `all`, in order, whose ordinal lies strictly between `lo`
/// and `hi` (`hi` of `None` meaning no upper bound).
pub fn collect_window<S: State>(all: Vec<S>, lo: u32, hi: Option<u32>) -> (r: Vec<S>)
    ensures
        r@ == ordinal_window(
            all@,
            lo as int,
            match hi {
                Some(h) => h as int,
                None => u32::MAX as int + 1,
            },
        ),
    decreases all@.len(),
{
    let mut rest = all;
    let ghost whole = rest@;
    match rest.pop() {
        None => Vec::new(),
        Some(last) => {
            assert(rest@ == whole.drop_last());
            let o = last.ordinal();
            let below = match hi {
                Some(h) => o < h,
                None => true,
            };
            let mut prev = collect_window(rest, lo, hi);
            if lo < o && below {
                prev.push(last);
            }
            prev
        },
    }
}

/// Record of a state transition.
#[derive(Debug)]
pub struct TransitionRecord<S: State> {
    /// The state before the transition.
    pub from: S,
    /// The state after the transition.
    pub to: S,
    /// States that were skipped during this transition.
    pub skipped: Vec<S>,
    /// When the transition occurred.
    pub timestamp: Timestamp,
}

/// `b` holds clones of the states of `a`, in the same order.
pub open spec fn cloned_states<S: State>(a: Seq<S>, b: Seq<S>) -> bool {
    &&& a.len() == b.len()
    &&& forall|i: int| 0 <= i < a.len() ==> cloned(a[i], #[trigger] b[i])
}

/// Copies a list of states, element by element.
pub fn clone_states<S: State>(v: &Vec<S>) -> (r: Vec<S>)
    ensures
        cloned_states(v@, r@),
{
    let mut out: Vec<S> = Vec::new();
    let mut i: usize = 0;
    while i < v.len()
        invariant
            i <= v.len(),
            out@.len() == i,
            forall|j: int| 0 <= j < i ==> cloned(v@[j], #[trigger] out@[j]),
        decreases v.len() - i,
    {
        let s = v[i].clone();
        out.push(s);
        i = i + 1;
    }
    out
}

/// `b` is a copy of the record `a`: its states are clones of those of `a`,
/// and the instant is the same.
pub open spec fn copied_record<S: State>(a: TransitionRecord<S>, b: TransitionRecord<S>) -> bool {
    &&& cloned(a.from, b.from)
    &&& cloned(a.to, b.to)
    &&& cloned_states(a.skipped@, b.skipped@)
    &&& a.timestamp == b.timestamp
}

impl<S: State> Clone for TransitionRecord<S> {
    fn clone(&self) -> (r: Self)
        ensures
            copied_record(*self, r),
    {
        TransitionRecord {
            from: self.from.clone(),
            to: self.to.clone(),
            skipped: clone_states(&self.skipped),
            timestamp: self.timestamp,
        }
    }
}

/// Configuration for the state machine.
#[derive(Debug, Clone, Copy)]
pub struct StateMachineConfig {
    /// Whether to allow skipping intermediate states (forward jumps).
    pub allow_skip: bool,
}

impl Default for StateMachineConfig {
    /// The default configuration allows skipping states.
    fn default() -> (r: StateMachineConfig)
        ensures
            r.allow_skip,
    {
        StateMachineConfig { allow_skip: true }
    }
}

/// The reason given when a transition does not move forward.
pub open spec fn backward_reason() -> Seq<char> {
    "backward transitions are not allowed"@
}

/// The text that opens the reason given when a transition would skip states.
pub open spec fn skip_reason_prefix() -> Seq<char> {
    "skipping states is not allowed; would skip: "@
}

/// The reason given when a transition would skip `states`: the opening
/// text, then their display strings joined by ", ".
pub open spec fn skip_reason<S: State>(states: Seq<S>, s: Seq<char>) -> bool {
    &&& skip_reason_prefix().is_prefix_of(s)
    &&& displays_joined(states, s.subrange(skip_reason_prefix().len() as int, s.len() as int))
}

/// The error a transition from `from` to `to` is refused with: `from` and
/// `to` are display strings of the two states.
pub open spec fn is_invalid_transition<S: State>(
    e: StateMachineError,
    from: S,
    to: S,
    reason: spec_fn(Seq<char>) -> bool,
) -> bool {
    match e {
        StateMachineError::InvalidTransition { from: f, to: t, reason: r } => {
            &&& vstd::string::to_string_from_display_ensures::<S>(&from, f)
            &&& vstd::string::to_string_from_display_ensures::<S>(&to, t)
            &&& reason(r@)
        },
        _ => false,
    }
}

/// `labels` are display strings of `states`, one for each, in order.
pub open spec fn display_labels<S: State>(states: Seq<S>, labels: Seq<String>) -> bool {
    &&& labels.len() == states.len()
    &&& forall|i: int|
        0 <= i < states.len() ==> vstd::string::to_string_from_display_ensures::<S>(
            &states[i],
            #[trigger] labels[i],
        )
}

/// `text` is display strings of `states` joined by ", ".
pub open spec fn displays_joined<S: State>(states: Seq<S>, text: Seq<char>) -> bool {
    exists|labels: Seq<String>|
        #[trigger] display_labels(states, labels) && text == joined(texts(labels), ", "@)
}

/// Joins display strings of `states`, separated by ", ".
pub fn join_display<S: State>(states: &Vec<S>) -> (r: String)
    ensures
        displays_joined(states@, r@),
{
    let mut out = String::new();
    let ghost mut labels: Seq<String> = Seq::empty();
    let mut i: usize = 0;
    while i < states.len()
        invariant
            i <= states.len(),
            display_labels(states@.take(i as int), labels),
            out@ == joined(texts(labels), ", "@),
        decreases states.len() - i,
    {
        let ghost before = labels;
        if i > 0 {
            out.append(", ");
        }
        let t = states[i].to_string();
        out.append(t.as_str());
        proof {
            labels = labels.push(t);
            assert(texts(labels).drop_last() =~= texts(before));
            assert(states@.take(i + 1).drop_last() =~= states@.take(i as int));
            assert forall|j: int| 0 <= j < i + 1 implies vstd::string::to_string_from_display_ensures::<S>(
                &states@.take(i + 1)[j],
                #[trigger] labels[j],
            ) by {
                if j < i {
                    assert(states@.take(i + 1)[j] == states@.take(i as int)[j]);
                }
            }
            if i == 0 {
                assert(texts(labels).len() == 1);
            }
        }
        i = i + 1;
    }
    assert(states@.take(states@.len() as int) =~= states@);
    assert(display_labels(states@, labels));
    out
}

/// Checks a transition from `current` to `target` against the forward-only
/// rule and `config`, and returns the states it would skip.
pub fn check_transition<S: State>(current: &S, target: &S, config: &StateMachineConfig) -> (r:
    Result<Vec<S>, StateMachineError>)
    ensures
        match r {
            Ok(skipped) => {
                &&& current.spec_ordinal() < target.spec_ordinal()
                &&& skipped@ == skipped_between(*current, *target)
                &&& (config.allow_skip || skipped@.len() == 0)
            },
            Err(e) => {
                ||| (target.spec_ordinal() <= current.spec_ordinal() && is_invalid_transition(
                    e,
                    *current,
                    *target,
                    |s: Seq<char>| s == backward_reason(),
                ))
                ||| (current.spec_ordinal() < target.spec_ordinal() && !config.allow_skip
                    && skipped_between(*current, *target).len() > 0 && is_invalid_transition(
                    e,
                    *current,
                    *target,
                    |s: Seq<char>| skip_reason(skipped_between(*current, *target), s),
                ))
            },
        },
{
    let cur = current.ordinal();
    let tgt = target.ordinal();
    if tgt <= cur {
        let reason = String::from_str("backward transitions are not allowed");
        proof {
            reveal_strlit("backward transitions are not allowed");
        }
        return Err(
            StateMachineError::InvalidTransition {
                from: current.to_string(),
                to: target.to_string(),
                reason,
            },
        );
    }
    let all = S::all_states();
    let skipped = collect_window(all, cur, Some(tgt));
    if !config.allow_skip && skipped.len() > 0 {
        let mut reason = String::from_str("skipping states is not allowed; would skip: ");
        let ghost prefix = reason@;
        proof {
            reveal_strlit("skipping states is not allowed; would skip: ");
        }
        let names = join_display(&skipped);
        reason.append(names.as_str());
        assert(prefix.is_prefix_of(reason@)) by {
            assert(reason@.subrange(0, prefix.len() as int) =~= prefix);
        }
        assert(reason@.subrange(prefix.len() as int, reason@.len() as int) =~= names@);
        return Err(
            StateMachineError::InvalidTransition {
                from: current.to_string(),
                to: target.to_string(),
                reason,
            },
        );
    }
    Ok(skipped)
}

/// Generic finite state machine with forward-only enforcement and optional
/// guards.
#[derive(Debug, Clone)]
pub struct StateMachine<S: State> {
    current: S,
    history: Vec<TransitionRecord<S>>,
}

impl<S: State> StateMachine<S> {
    /// The current state.
    pub closed spec fn spec_current(&self) -> S {
        self.current
    }

    /// The transition history, oldest first.
    pub closed spec fn spec_history(&self) -> Seq<TransitionRecord<S>> {
        self.history@
    }

    /// Create a new state machine starting at the given state.
    pub fn new(initial: S) -> (r: Self)
        ensures
            r.spec_current() == initial,
            r.spec_history().len() == 0,
    {
        StateMachine { current: initial, history: Vec::new() }
    }

    /// Create a state machine from a persisted state and history.
    pub fn restore(current: S, history: Vec<TransitionRecord<S>>) -> (r: Self)
        ensures
            r.spec_current() == current,
            r.spec_history() == history@,
    {
        StateMachine { current, history }
    }

    /// Get the current state.
    pub fn current(&self) -> (r: &S)
        ensures
            *r == self.spec_current(),
    {
        &self.current
    }

    /// Get the transition history.
    pub fn history(&self) -> (r: &[TransitionRecord<S>])
        ensures
            r@ == self.spec_history(),
    {
        self.history.as_slice()
    }

    /// Attempt a transition to the target state with the default
    /// configuration (forward-only, skipping allowed, no guard).
    pub fn transition(&mut self, target: S) -> (r: Result<&TransitionRecord<S>, StateMachineError>)
        ensures
            transition_outcome(*old(self), *final(self), target, true, r),
    {
        let config = StateMachineConfig::default();
        self.transition_with_config(target, &config)
    }

    /// Attempt a transition with a custom configuration.
    pub fn transition_with_config(&mut self, target: S, config: &StateMachineConfig) -> (r: Result<
        &TransitionRecord<S>,
        StateMachineError,
    >)
        ensures
            transition_outcome(*old(self), *final(self), target, config.allow_skip, r),
    {
        match check_transition(&self.current, &target, config) {
            Err(e) => Err(e),
            Ok(skipped) => {
                let to = target.clone();
                let mut from = target;
                core::mem::swap(&mut self.current, &mut from);
                let record = TransitionRecord { from, to, skipped, timestamp: utc_now() };
                self.history.push(record);
                let n = self.history.len();
                assert(self.history@.drop_last() =~= old(self).history@);
                Ok(&self.history[n - 1])
            },
        }
    }

    /// Acts on a guard's verdict on a move to `target`: a rejection gives
    /// `GuardRejected` with the guard's reason and leaves the machine as it
    /// is; an approval makes the transition with the default configuration.
    pub fn apply_guard_result(&mut self, target: S, verdict: Result<(), String>) -> (r: Result<
        &TransitionRecord<S>,
        StateMachineError,
    >)
        ensures
            guard_outcome(*old(self), *final(self), target, verdict, r),
    {
        match verdict {
            Err(reason) => Err(
                StateMachineError::GuardRejected {
                    from: self.current.to_string(),
                    to: target.to_string(),
                    reason,
                },
            ),
            Ok(()) => self.transition(target),
        }
    }

    /// Attempt a guarded transition.  The guard is consulted first, on the
    /// current state and the target; a rejection leaves the machine
    /// unchanged, an approval makes the transition.
    pub fn guarded_transition<G: TransitionGuard<S>>(&mut self, target: S, guard: &G) -> (r: Result<
        &TransitionRecord<S>,
        StateMachineError,
    >)
        ensures
            exists|verdict: Result<(), String>|
                #[trigger] guard.spec_check(old(self).spec_current(), target, verdict)
                    && guard_outcome(*old(self), *final(self), target, verdict, r),
    {
        let verdict = guard.check(&self.current, &target);
        let ghost pre = *self;
        let ghost v = verdict;
        let r = self.apply_guard_result(target, verdict);
        assert(guard.spec_check(pre.spec_current(), target, v));
        r
    }

    /// Whether a transition to `target` moves forward.
    pub fn can_transition(&self, target: &S) -> (r: bool)
        ensures
            r == (self.spec_current().spec_ordinal() < target.spec_ordinal()),
    {
        target.ordinal() > self.current.ordinal()
    }

    /// The states reachable from the current state, in lifecycle order.
    pub fn reachable_states(&self) -> (r: Vec<S>)
        ensures
            r@ == states_after(self.spec_current()),
    {
        let all = S::all_states();
        collect_window(all, self.current.ordinal(), None)
    }

    /// The number of transitions made.
    pub fn transition_count(&self) -> (r: usize)
        ensures
            r == self.spec_history().len(),
    {
        self.history.len()
    }

    /// Whether no state is reachable from the current one.
    pub fn is_terminal(&self) -> (r: bool)
        ensures
            r == (states_after(self.spec_current()).len() == 0),
    {
        self.reachable_states().len() == 0
    }

    /// A description of the machine: "StateMachine(" followed by the
    /// display string of the current state and ")".
    pub fn display(&self) -> (r: String)
        ensures
            exists|label: String|
                vstd::string::to_string_from_display_ensures::<S>(&self.spec_current(), label)
                    && r@ == "StateMachine("@ + label@ + ")"@,
    {
        let label = self.current.to_string();
        let mut out = String::from_str("StateMachine(");
        out.append(label.as_str());
        out.append(")");
        assert(vstd::string::to_string_from_display_ensures::<S>(&self.spec_current(), label) && out@
            == "StateMachine("@ + label@ + ")"@);
        out
    }
}

/// What acting on the guard's `verdict` on a move to `target` leaves behind:
/// on a rejection the machine is unchanged and the error is `GuardRejected`
/// with display strings of the two states and exactly the guard's reason; on
/// an approval, the outcome of a transition with the default configuration.
pub open spec fn guard_outcome<S: State>(
    pre: StateMachine<S>,
    post: StateMachine<S>,
    target: S,
    verdict: Result<(), String>,
    r: Result<&TransitionRecord<S>, StateMachineError>,
) -> bool {
    match verdict {
        Err(x) => {
            &&& post == pre
            &&& match r {
                Err(StateMachineError::GuardRejected { from, to, reason }) => {
                    &&& reason == x
                    &&& vstd::string::to_string_from_display_ensures::<S>(&pre.spec_current(), from)
                    &&& vstd::string::to_string_from_display_ensures::<S>(&target, to)
                },
                _ => false,
            }
        },
        Ok(()) => transition_outcome(pre, post, target, true, r),
    }
}

/// What a transition towards `target` leaves behind: on success the machine
/// has moved to `target` and appended a record of the move (from the old
/// state, over exactly the states in between, to `target`), and the record
/// handed back is that last entry, stamped with an instant chrono
/// represents; on failure the machine is unchanged and
/// the move was backward, or skipped states while skipping is not allowed,
/// and the error names both states and gives the reason.
pub open spec fn transition_outcome<S: State>(
    pre: StateMachine<S>,
    post: StateMachine<S>,
    target: S,
    allow_skip: bool,
    r: Result<&TransitionRecord<S>, StateMachineError>,
) -> bool {
    match r {
        Ok(rec) => {
            &&& pre.spec_current().spec_ordinal() < target.spec_ordinal()
            &&& (allow_skip || skipped_between(pre.spec_current(), target).len() == 0)
            &&& post.spec_current() == target
            &&& post.spec_history().len() == pre.spec_history().len() + 1
            &&& post.spec_history().drop_last() == pre.spec_history()
            &&& *rec == post.spec_history().last()
            &&& rec.from == pre.spec_current()
            &&& cloned(target, rec.to)
            &&& rec.skipped@ == skipped_between(pre.spec_current(), target)
            &&& chrono_represents(rec.timestamp.secs, rec.timestamp.nanos)
        },
        Err(e) => {
            &&& post == pre
            &&& (target.spec_ordinal() <= pre.spec_current().spec_ordinal() || (!allow_skip
                && skipped_between(pre.spec_current(), target).len() > 0))
            &&& e is InvalidTransition
            &&& (target.spec_ordinal() <= pre.spec_current().spec_ordinal() ==> is_invalid_transition(
                e,
                pre.spec_current(),
                target,
                |s: Seq<char>| s == backward_reason(),
            ))
            &&& (pre.spec_current().spec_ordinal() < target.spec_ordinal() ==> is_invalid_transition(
                e,
                pre.spec_current(),
                target,
                |s: Seq<char>| skip_reason(skipped_between(pre.spec_current(), target), s),
            ))
        },
    }
}

} // verus!
