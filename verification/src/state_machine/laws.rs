//! What holds of the state machine across its operations.
use vstd::prelude::*;

use super::entities::{
    backward_reason, is_invalid_transition, skip_reason, lemma_window_contains, lemma_window_empty, skipped_between, states_after, transition_outcome,
    State, StateMachine, StateMachineConfig, StateMachineError, TransitionRecord,
};
use super::services::{lemma_valid_targets_contains, valid_targets, validation_outcome, ValidationResult};
use super::dto::StateMachineDto;
use super::ports::{RepositoryError, StateMachineRepository};
use super::use_cases::{
    creation_outcome, moved_with_copy, record_instant_representable, status_outcome,
    transition_request_outcome, UseCaseError,
};

verus! {

/// Forward only: a transition that succeeds moves the machine to a state of
/// strictly greater ordinal.
pub proof fn law_transitions_only_move_forward<S: State>(
    pre: StateMachine<S>,
    post: StateMachine<S>,
    target: S,
    allow_skip: bool,
    r: Result<&TransitionRecord<S>, StateMachineError>,
)
    requires
        transition_outcome(pre, post, target, allow_skip, r),
        r is Ok,
    ensures
        pre.spec_current().spec_ordinal() < post.spec_current().spec_ordinal(),
{
}

/// A refused transition changes nothing: the state and the history stay as
/// they were.
pub proof fn law_refused_transition_changes_nothing<S: State>(
    pre: StateMachine<S>,
    post: StateMachine<S>,
    target: S,
    allow_skip: bool,
    r: Result<&TransitionRecord<S>, StateMachineError>,
)
    requires
        transition_outcome(pre, post, target, allow_skip, r),
        r is Err,
    ensures
        post.spec_current() == pre.spec_current(),
        post.spec_history() == pre.spec_history(),
{
}

/// History tracking: each successful transition appends exactly one record,
/// from the old state to the target, after the records already kept.
pub proof fn law_history_records_each_transition<S: State>(
    pre: StateMachine<S>,
    post: StateMachine<S>,
    target: S,
    allow_skip: bool,
    r: Result<&TransitionRecord<S>, StateMachineError>,
)
    requires
        transition_outcome(pre, post, target, allow_skip, r),
        r is Ok,
    ensures
        post.spec_history().len() == pre.spec_history().len() + 1,
        post.spec_history().take(pre.spec_history().len() as int) == pre.spec_history(),
        post.spec_history().last().from == pre.spec_current(),
        cloned(target, post.spec_history().last().to),
{
    assert(post.spec_history().take(pre.spec_history().len() as int) =~= post.spec_history().drop_last());
}

/// `can_transition` predicts the default transition: it holds exactly when
/// a transition to the target with the default configuration succeeds.
pub proof fn law_can_transition_iff_transition_succeeds<S: State>(
    pre: StateMachine<S>,
    post: StateMachine<S>,
    target: S,
    r: Result<&TransitionRecord<S>, StateMachineError>,
)
    requires
        transition_outcome(pre, post, target, true, r),
    ensures
        r is Ok <==> pre.spec_current().spec_ordinal() < target.spec_ordinal(),
{
}

/// Validation without performing agrees with performing: under the same
/// configuration, a move is validated exactly when the machine makes it;
/// both name the same skipped states; and where both refuse, both give
/// `InvalidTransition` naming the same two states for the same reason (the
/// backward rule, or the same skipped states).  Validation changes nothing:
/// it reads the validator and the states only.
pub proof fn law_validator_agrees_with_machine<S: State>(
    config: StateMachineConfig,
    pre: StateMachine<S>,
    post: StateMachine<S>,
    target: S,
    v: Result<ValidationResult<S>, StateMachineError>,
    r: Result<&TransitionRecord<S>, StateMachineError>,
)
    requires
        validation_outcome(config, pre.spec_current(), target, v),
        transition_outcome(pre, post, target, config.allow_skip, r),
    ensures
        v is Ok <==> r is Ok,
        v is Ok && r is Ok ==> v->Ok_0.skipped@ == r->Ok_0.skipped@,
        v is Err && r is Err && target.spec_ordinal() <= pre.spec_current().spec_ordinal() ==> {
            &&& is_invalid_transition(
                v->Err_0,
                pre.spec_current(),
                target,
                |s: Seq<char>| s == backward_reason(),
            )
            &&& is_invalid_transition(
                r->Err_0,
                pre.spec_current(),
                target,
                |s: Seq<char>| s == backward_reason(),
            )
        },
        v is Err && r is Err && pre.spec_current().spec_ordinal() < target.spec_ordinal() ==> {
            &&& is_invalid_transition(
                v->Err_0,
                pre.spec_current(),
                target,
                |s: Seq<char>| skip_reason(skipped_between(pre.spec_current(), target), s),
            )
            &&& is_invalid_transition(
                r->Err_0,
                pre.spec_current(),
                target,
                |s: Seq<char>| skip_reason(skipped_between(pre.spec_current(), target), s),
            )
        },
{
}

/// The valid next states are exactly the states of the lifecycle to which
/// `validate` accepts a move.
pub proof fn law_valid_next_states_are_validated<S: State>(
    config: StateMachineConfig,
    current: S,
    s: S,
    v: Result<ValidationResult<S>, StateMachineError>,
)
    requires
        validation_outcome(config, current, s, v),
    ensures
        valid_targets(S::spec_all_states(), current, config.allow_skip).contains(s) <==> (
        S::spec_all_states().contains(s) && v is Ok),
{
    lemma_valid_targets_contains(S::spec_all_states(), current, config.allow_skip, s);
}

/// A transition skips exactly the states of the lifecycle whose ordinal lies
/// strictly between the old state's and the target's.
pub proof fn law_skipped_states_lie_between<S: State>(from: S, to: S, s: S)
    ensures
        skipped_between(from, to).contains(s) <==> (S::spec_all_states().contains(s)
            && from.spec_ordinal() < s.spec_ordinal() && s.spec_ordinal() < to.spec_ordinal()),
{
    lemma_window_contains(
        S::spec_all_states(),
        from.spec_ordinal() as int,
        to.spec_ordinal() as int,
        s,
    );
}

/// With skipping disabled, a successful transition skips no state.
pub proof fn law_no_skip_means_adjacent<S: State>(
    pre: StateMachine<S>,
    post: StateMachine<S>,
    target: S,
    r: Result<&TransitionRecord<S>, StateMachineError>,
)
    requires
        transition_outcome(pre, post, target, false, r),
        r is Ok,
    ensures
        r->Ok_0.skipped@.len() == 0,
        forall|i: int|
            0 <= i < S::spec_all_states().len() ==> !(pre.spec_current().spec_ordinal()
                < #[trigger] S::spec_all_states()[i].spec_ordinal()
                && S::spec_all_states()[i].spec_ordinal() < target.spec_ordinal()),
{
    lemma_window_empty(
        S::spec_all_states(),
        pre.spec_current().spec_ordinal() as int,
        target.spec_ordinal() as int,
    );
}

/// The reachable states are exactly the states of the lifecycle of greater
/// ordinal than the current one.
pub proof fn law_reachable_are_later_states<S: State>(current: S, s: S)
    ensures
        states_after(current).contains(s) <==> (S::spec_all_states().contains(s)
            && current.spec_ordinal() < s.spec_ordinal()),
{
    lemma_window_contains(
        S::spec_all_states(),
        current.spec_ordinal() as int,
        u32::MAX as int + 1,
        s,
    );
}

/// A machine is terminal exactly when no state of the lifecycle has a
/// greater ordinal than its current state.
pub proof fn law_terminal_iff_no_later_state<S: State>(current: S)
    ensures
        states_after(current).len() == 0 <==> (forall|i: int|
            0 <= i < S::spec_all_states().len() ==> #[trigger] S::spec_all_states()[i].spec_ordinal()
                <= current.spec_ordinal()),
{
    lemma_window_empty(S::spec_all_states(), current.spec_ordinal() as int, u32::MAX as int + 1);
}

/// Creating a machine fails only where the repository's save of the new
/// machine failed, and then with that save's error; otherwise the machine
/// handed back is the one saved, at the initial state with no history.
pub proof fn law_create_fails_only_on_save<S: State, R: StateMachineRepository<S>>(
    repo: R,
    id: Seq<char>,
    initial: S,
    r: Result<StateMachine<S>, UseCaseError>,
)
    requires
        creation_outcome(repo, id, initial, r),
    ensures
        r matches Ok(sm) ==> {
            &&& sm.spec_current() == initial
            &&& sm.spec_history().len() == 0
            &&& exists|saved: Result<(), RepositoryError>| #[trigger] repo.spec_save(id, sm, saved) && saved is Ok
        },
        r matches Err(e) ==> (e matches UseCaseError::Repository(x) && exists|sm: StateMachine<S>|
            #[trigger] repo.spec_save(id, sm, Err(x)) && sm.spec_current() == initial
                && sm.spec_history().len() == 0),
{
    let (sm, saved) = choose|sm: StateMachine<S>, saved: Result<(), RepositoryError>|
        #[trigger] repo.spec_save(id, sm, saved) && sm.spec_current() == initial
            && sm.spec_history().len() == 0 && match saved {
            Ok(()) => r == Ok::<StateMachine<S>, UseCaseError>(sm),
            Err(e) => r matches Err(UseCaseError::Repository(x)) && x == e,
        };
    if saved is Err {
        assert(repo.spec_save(id, sm, Err(saved->Err_0)));
    }
}

/// A transition request answers what the repository found: `NotFound`
/// exactly when nothing is stored under the identifier; a stored machine
/// asked to move forward is moved and saved (an error then can only be the
/// save's), one asked to move backward refuses; and a record comes back only
/// after the moved machine, now at the target with one more record, was
/// saved.
pub proof fn law_transition_request_follows_lookup<S: State, R: StateMachineRepository<S>>(
    repo: R,
    id: Seq<char>,
    target: S,
    found: Result<Option<StateMachine<S>>, RepositoryError>,
    r: Result<TransitionRecord<S>, UseCaseError>,
)
    requires
        transition_request_outcome(repo, id, target, found, r),
    ensures
        (r matches Err(UseCaseError::NotFound(_))) <==> (found matches Ok(None)),
        found matches Err(e) ==> (r matches Err(UseCaseError::Repository(x)) && x == e),
        r is Ok ==> found matches Ok(Some(_)),
        match found {
            Ok(Some(pre)) => {
                &&& pre.spec_current().spec_ordinal() < target.spec_ordinal() ==> (r is Ok
                    || r matches Err(UseCaseError::Repository(_)))
                &&& target.spec_ordinal() <= pre.spec_current().spec_ordinal() ==> (r matches Err(
                    UseCaseError::StateMachine(_),
                ))
                &&& r is Ok ==> exists|post: StateMachine<S>, saved: Result<(), RepositoryError>|
                    #[trigger] repo.spec_save(id, post, saved) && saved is Ok && post.spec_current()
                        == target && post.spec_history().len() == pre.spec_history().len() + 1
            },
            _ => true,
        },
{
    if let Ok(Some(pre)) = found {
        if r is Ok {
            let rec = r->Ok_0;
            let (post, saved) = choose|post: StateMachine<S>, saved: Result<(), RepositoryError>|
                #[trigger] repo.spec_save(id, post, saved) && saved is Ok && moved_with_copy(
                    pre,
                    post,
                    target,
                    rec,
                );
            let kept = choose|kept: TransitionRecord<S>|
                transition_outcome(pre, post, target, true, Ok(&kept)) && #[trigger] super::entities::copied_record(kept, rec);
            assert(post.spec_current() == target);
        }
        if let Err(UseCaseError::Repository(e)) = r {
            let (post, rec) = choose|post: StateMachine<S>, rec: TransitionRecord<S>|
                #![trigger repo.spec_save(id, post, Err(e)), moved_with_copy(pre, post, target, rec)]
                repo.spec_save(id, post, Err(e)) && moved_with_copy(pre, post, target, rec);
            let kept = choose|kept: TransitionRecord<S>|
                transition_outcome(pre, post, target, true, Ok(&kept)) && #[trigger] super::entities::copied_record(kept, rec);
            assert(pre.spec_current().spec_ordinal() < target.spec_ordinal());
        }
        if let Err(UseCaseError::StateMachine(e)) = r {
            let post = choose|post: StateMachine<S>| transition_outcome(pre, post, target, true, Err(e));
            assert(target.spec_ordinal() <= pre.spec_current().spec_ordinal());
        }
    }
}

/// A status request answers what the repository found: `Ok(None)` exactly
/// when nothing is stored under the identifier, a lookup error is passed
/// on, and a stored machine whose record instants can be represented is
/// reported under the identifier, at its current state, with one entry per
/// record and whether it is terminal.
pub proof fn law_status_reports_stored_machine<S: State>(
    id: Seq<char>,
    found: Result<Option<StateMachine<S>>, RepositoryError>,
    r: Result<Option<StateMachineDto>, UseCaseError>,
)
    requires
        status_outcome(id, found, r),
    ensures
        (r matches Ok(None)) <==> (found matches Ok(None)),
        found matches Err(e) ==> (r matches Err(UseCaseError::Repository(x)) && x == e),
        match found {
            Ok(Some(sm)) => (forall|i: int|
                0 <= i < sm.spec_history().len() ==> record_instant_representable(
                    #[trigger] sm.spec_history()[i],
                )) ==> (r matches Ok(Some(d)) && d.id@ == id
                && vstd::string::to_string_from_display_ensures::<S>(&sm.spec_current(), d.current_state)
                && d.history@.len() == sm.spec_history().len() && d.is_terminal == (states_after(
                sm.spec_current(),
            ).len() == 0)),
            _ => true,
        },
{
}

} // verus!
