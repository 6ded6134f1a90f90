//! Use cases: orchestrate the domain through the repository port.
use vstd::prelude::*;

use super::dto::{StateMachineDto, TransitionRecordDto};
use super::entities::{
    copied_record, states_after, transition_outcome, State, StateMachine, StateMachineError,
    TransitionRecord,
};
use super::ports::{repository_error_text, RepositoryError, StateMachineRepository};
use super::entities::state_machine_error_text;
use crate::common::text::labelled;
use crate::common::clock::{chrono_represents, format_rfc3339, rfc3339_text};

verus! {

/// Error type for use case operations.
#[derive(Debug)]
pub enum UseCaseError {
    NotFound(String),
    Repository(RepositoryError),
    StateMachine(StateMachineError),
    InvalidState(String),
}

/// The message of a use-case error, as its display form reads.
pub open spec fn use_case_error_text(e: UseCaseError) -> Seq<char> {
    match e {
        UseCaseError::NotFound(s) => "state machine not found: "@ + s@,
        UseCaseError::Repository(r) => "repository error: "@ + repository_error_text(r),
        UseCaseError::StateMachine(m) => "state machine error: "@ + state_machine_error_text(m),
        UseCaseError::InvalidState(s) => "invalid state: "@ + s@,
    }
}

impl UseCaseError {
    /// The message of the error, as its display form reads.
    pub fn message(&self) -> (r: String)
        ensures
            r@ == use_case_error_text(*self),
    {
        match self {
            UseCaseError::NotFound(s) => labelled("state machine not found: ", s.as_str()),
            UseCaseError::Repository(e) => {
                let t = e.message();
                labelled("repository error: ", t.as_str())
            },
            UseCaseError::StateMachine(e) => {
                let t = e.message();
                labelled("state machine error: ", t.as_str())
            },
            UseCaseError::InvalidState(s) => labelled("invalid state: ", s.as_str()),
        }
    }
}

/// What creating a machine at `initial` under `id` gives: a new machine at
/// `initial` with no history is handed to the repository's save; if the
/// save succeeds that machine comes back, and if it fails its error does.
pub open spec fn creation_outcome<S: State, R: StateMachineRepository<S>>(
    repo: R,
    id: Seq<char>,
    initial: S,
    r: Result<StateMachine<S>, UseCaseError>,
) -> bool {
    exists|sm: StateMachine<S>, saved: Result<(), RepositoryError>|
        #[trigger] repo.spec_save(id, sm, saved) && sm.spec_current() == initial
            && sm.spec_history().len() == 0 && match saved {
            Ok(()) => r == Ok::<StateMachine<S>, UseCaseError>(sm),
            Err(e) => r matches Err(UseCaseError::Repository(x)) && x == e,
        }
}

/// What a transition request for `id` towards `target` gives, where the
/// repository's lookup answered `found`: a lookup error is passed on;
/// nothing found gives `NotFound(id)`; a found machine that refuses the move
/// gives its error; one that makes it is handed to the repository's save,
/// and then either a copy of the new record comes back (save succeeded) or
/// the save's error does.
pub open spec fn transition_request_outcome<S: State, R: StateMachineRepository<S>>(
    repo: R,
    id: Seq<char>,
    target: S,
    found: Result<Option<StateMachine<S>>, RepositoryError>,
    r: Result<TransitionRecord<S>, UseCaseError>,
) -> bool {
    match found {
        Err(e) => r matches Err(UseCaseError::Repository(x)) && x == e,
        Ok(None) => r matches Err(UseCaseError::NotFound(s)) && s@ == id,
        Ok(Some(pre)) => match r {
            Ok(rec) => exists|post: StateMachine<S>, saved: Result<(), RepositoryError>|
                #[trigger] repo.spec_save(id, post, saved) && saved is Ok && moved_with_copy(
                    pre,
                    post,
                    target,
                    rec,
                ),
            Err(UseCaseError::StateMachine(e)) => exists|post: StateMachine<S>|
                transition_outcome(pre, post, target, true, Err(e)),
            Err(UseCaseError::Repository(e)) => exists|post: StateMachine<S>, rec: TransitionRecord<S>|
                #![trigger repo.spec_save(id, post, Err(e)), moved_with_copy(pre, post, target, rec)]
                repo.spec_save(id, post, Err(e)) && moved_with_copy(pre, post, target, rec),
            _ => false,
        },
    }
}

/// What a status request for `id` gives, where the repository's lookup
/// answered `found`: a lookup error is passed on; nothing found gives
/// `Ok(None)`; a found machine gives its display form, or `InvalidState`
/// where the instant of one of its records cannot be represented.
pub open spec fn status_outcome<S: State>(
    id: Seq<char>,
    found: Result<Option<StateMachine<S>>, RepositoryError>,
    r: Result<Option<StateMachineDto>, UseCaseError>,
) -> bool {
    match found {
        Err(e) => r matches Err(UseCaseError::Repository(x)) && x == e,
        Ok(None) => r matches Ok(None),
        Ok(Some(sm)) => {
            &&& (r is Ok <==> forall|i: int|
                0 <= i < sm.spec_history().len() ==> record_instant_representable(
                    #[trigger] sm.spec_history()[i],
                ))
            &&& match r {
                Ok(Some(d)) => machine_dto_of(id, sm, d),
                Ok(None) => false,
                Err(e) => e matches UseCaseError::InvalidState(m) && m@ == "timestamp out of range"@,
            }
        },
    }
}

/// Use case for creating a new state machine.
pub struct CreateStateMachineUseCase<R> {
    repository: R,
}

impl<R> CreateStateMachineUseCase<R> {
    /// The repository the use case works on.
    pub closed spec fn spec_repository(&self) -> R {
        self.repository
    }

    /// A use case over `repository`.
    pub fn new(repository: R) -> (r: Self)
        ensures
            r.spec_repository() == repository,
    {
        CreateStateMachineUseCase { repository }
    }

    /// Creates a machine at `initial_state`, saves it under `id` and hands
    /// it back; a failed save is passed on.
    pub fn execute<S: State>(&self, id: &str, initial_state: S) -> (r: Result<
        StateMachine<S>,
        UseCaseError,
    >)
        where
            R: StateMachineRepository<S>,
        ensures
            match r {
                Ok(sm) => sm.spec_current() == initial_state && sm.spec_history().len() == 0,
                Err(e) => e is Repository,
            },
            creation_outcome(self.spec_repository(), id@, initial_state, r),
    {
        let sm = StateMachine::new(initial_state);
        let saved = self.repository.save(id, &sm);
        let ghost fresh = sm;
        let ghost answer = saved;
        assert(self.spec_repository().spec_save(id@, fresh, answer));
        match saved {
            Ok(()) => Ok(sm),
            Err(e) => Err(UseCaseError::Repository(e)),
        }
    }
}

/// The machine moved from `pre` to `post` towards `target` with the default
/// configuration, and `rec` is a copy of the record it kept of the move.
pub open spec fn moved_with_copy<S: State>(
    pre: StateMachine<S>,
    post: StateMachine<S>,
    target: S,
    rec: TransitionRecord<S>,
) -> bool {
    exists|kept: TransitionRecord<S>|
        transition_outcome(pre, post, target, true, Ok(&kept)) && #[trigger] copied_record(kept, rec)
}

/// Some machine moved towards `target` with the default configuration, and
/// `rec` is a copy of the record it kept of the move.
pub open spec fn moved_from_somewhere<S: State>(target: S, rec: TransitionRecord<S>) -> bool {
    exists|pre: StateMachine<S>, post: StateMachine<S>|
        #[trigger] moved_with_copy(pre, post, target, rec)
}

/// Decides a transition request on what the repository found under `id`:
/// nothing found gives `NotFound(id)`; otherwise the machine attempts the
/// move, a refused move gives the machine's error, and an accepted one gives
/// the moved machine (to be saved) and a copy of the new record.
pub fn apply_transition<S: State>(
    found: Option<StateMachine<S>>,
    id: &str,
    target: S,
) -> (r: Result<(StateMachine<S>, TransitionRecord<S>), UseCaseError>)
    ensures
        match found {
            None => r matches Err(UseCaseError::NotFound(s)) && s@ == id@,
            Some(pre) => match r {
                Ok((post, rec)) => moved_with_copy(pre, post, target, rec),
                Err(UseCaseError::StateMachine(e)) => exists|post: StateMachine<S>|
                    transition_outcome(pre, post, target, true, Err(e)),
                Err(_) => false,
            },
        },
{
    match found {
        None => Err(UseCaseError::NotFound(String::from_str(id))),
        Some(sm) => {
            let mut sm = sm;
            let ghost pre = sm;
            let ghost mut kept: TransitionRecord<S> = arbitrary();
            let outcome = match sm.transition(target) {
                Ok(rec) => {
                    proof {
                        kept = *rec;
                    }
                    Ok(rec.clone())
                },
                Err(e) => Err(e),
            };
            match outcome {
                Ok(rec) => {
                    assert(transition_outcome(pre, sm, target, true, Ok(&kept)));
                    assert(copied_record(kept, rec));
                    assert(moved_with_copy(pre, sm, target, rec));
                    Ok((sm, rec))
                },
                Err(e) => {
                    assert(transition_outcome(pre, sm, target, true, Err(e)));
                    Err(UseCaseError::StateMachine(e))
                },
            }
        },
    }
}

/// Use case for transitioning a stored state machine.
pub struct TransitionUseCase<R> {
    repository: R,
}

impl<R> TransitionUseCase<R> {
    /// The repository the use case works on.
    pub closed spec fn spec_repository(&self) -> R {
        self.repository
    }

    /// A use case over `repository`.
    pub fn new(repository: R) -> (r: Self)
        ensures
            r.spec_repository() == repository,
    {
        TransitionUseCase { repository }
    }

    /// Loads the machine stored under `id`, moves it to `target_state`,
    /// saves it and hands back the new record.  A repository failure is
    /// passed on as `Repository`; otherwise the outcome is that of
    /// `apply_transition` on what was loaded.
    pub fn execute<S: State>(&self, id: &str, target_state: S) -> (r: Result<
        TransitionRecord<S>,
        UseCaseError,
    >)
        where
            R: StateMachineRepository<S>,
        ensures
            r matches Ok(rec) ==> moved_from_somewhere(target_state, rec),
            r matches Err(e) ==> (e is Repository || e is StateMachine || (e matches UseCaseError::NotFound(
                s,
            ) && s@ == id@)),
            exists|found: Result<Option<StateMachine<S>>, RepositoryError>|
                #[trigger] self.spec_repository().spec_find(id@, found)
                    && transition_request_outcome(self.spec_repository(), id@, target_state, found, r),
    {
        let looked = self.repository.find_by_id(id);
        let ghost answer = looked;
        assert(self.spec_repository().spec_find(id@, answer));
        let found = match looked {
            Ok(f) => f,
            Err(e) => return Err(UseCaseError::Repository(e)),
        };
        match apply_transition(found, id, target_state) {
            Err(e) => Err(e),
            Ok((sm, rec)) => {
                let saved = self.repository.save(id, &sm);
                let ghost post = sm;
                let ghost saved_answer = saved;
                let ghost pre = found->Some_0;
                assert(self.spec_repository().spec_save(id@, post, saved_answer));
                assert(moved_with_copy(pre, post, target_state, rec));
                match saved {
                    Ok(()) => {
                        assert(moved_from_somewhere(target_state, rec));
                        let r = Ok(rec);
                        assert(transition_request_outcome(self.spec_repository(), id@, target_state, answer, r));
                        r
                    },
                    Err(e) => {
                        let r = Err(UseCaseError::Repository(e));
                        assert(self.spec_repository().spec_save(id@, post, Err(e)));
                        assert(transition_request_outcome(self.spec_repository(), id@, target_state, answer, r));
                        r
                    },
                }
            },
        }
    }
}

/// Display strings of `states`, in order.
pub fn display_all<S: State>(states: &Vec<S>) -> (r: Vec<String>)
    ensures
        r@.len() == states@.len(),
        forall|i: int|
            0 <= i < r@.len() ==> vstd::string::to_string_from_display_ensures::<S>(
                &states@[i],
                #[trigger] r@[i],
            ),
{
    let mut out: Vec<String> = Vec::new();
    let mut i: usize = 0;
    while i < states.len()
        invariant
            i <= states.len(),
            out@.len() == i,
            forall|j: int|
                0 <= j < i ==> vstd::string::to_string_from_display_ensures::<S>(
                    &states@[j],
                    #[trigger] out@[j],
                ),
        decreases states.len() - i,
    {
        out.push(states[i].to_string());
        i = i + 1;
    }
    out
}

/// `d` is the display form of `rec`: the display strings of its states and
/// the RFC 3339 text of its instant.
pub open spec fn record_dto_of<S: State>(rec: TransitionRecord<S>, d: TransitionRecordDto) -> bool {
    &&& vstd::string::to_string_from_display_ensures::<S>(&rec.from, d.from)
    &&& vstd::string::to_string_from_display_ensures::<S>(&rec.to, d.to)
    &&& d.skipped@.len() == rec.skipped@.len()
    &&& forall|i: int|
        0 <= i < d.skipped@.len() ==> vstd::string::to_string_from_display_ensures::<S>(
            &rec.skipped@[i],
            #[trigger] d.skipped@[i],
        )
    &&& d.timestamp@ == rfc3339_text(rec.timestamp.secs, rec.timestamp.nanos)
}

/// Whether chrono can represent the instant of `rec`.
pub open spec fn record_instant_representable<S: State>(rec: TransitionRecord<S>) -> bool {
    chrono_represents(rec.timestamp.secs, rec.timestamp.nanos)
}

/// The display form of a record: display strings of its states, and the
/// RFC 3339 text of its instant; `None` where chrono cannot represent the
/// instant.
pub fn record_to_dto<S: State>(rec: &TransitionRecord<S>) -> (r: Option<TransitionRecordDto>)
    ensures
        r is Some <==> record_instant_representable(*rec),
        r matches Some(d) ==> record_dto_of(*rec, d),
{
    match format_rfc3339(rec.timestamp) {
        None => None,
        Some(timestamp) => Some(
            TransitionRecordDto {
                from: rec.from.to_string(),
                to: rec.to.to_string(),
                skipped: display_all(&rec.skipped),
                timestamp,
            },
        ),
    }
}

/// `d` is the display form of the machine `sm` stored under `id`.
pub open spec fn machine_dto_of<S: State>(id: Seq<char>, sm: StateMachine<S>, d: StateMachineDto) -> bool {
    &&& d.id@ == id
    &&& vstd::string::to_string_from_display_ensures::<S>(&sm.spec_current(), d.current_state)
    &&& d.history@.len() == sm.spec_history().len()
    &&& forall|i: int|
        0 <= i < d.history@.len() ==> record_dto_of(sm.spec_history()[i], #[trigger] d.history@[i])
    &&& d.is_terminal == (states_after(sm.spec_current()).len() == 0)
}

/// Builds the display form of a stored machine.  `InvalidState` comes back
/// exactly when the instant of a record cannot be represented.
pub fn machine_to_dto<S: State>(id: &str, sm: &StateMachine<S>) -> (r: Result<
    StateMachineDto,
    UseCaseError,
>)
    ensures
        r is Ok <==> forall|i: int|
            0 <= i < sm.spec_history().len() ==> record_instant_representable(
                #[trigger] sm.spec_history()[i],
            ),
        match r {
            Ok(d) => machine_dto_of(id@, *sm, d),
            Err(e) => e matches UseCaseError::InvalidState(m) && m@ == "timestamp out of range"@,
        },
{
    let records = sm.history();
    let mut history: Vec<TransitionRecordDto> = Vec::new();
    let mut i: usize = 0;
    while i < records.len()
        invariant
            i <= records@.len(),
            records@ == sm.spec_history(),
            history@.len() == i,
            forall|j: int| 0 <= j < i ==> record_dto_of(records@[j], #[trigger] history@[j]),
            forall|j: int| 0 <= j < i ==> record_instant_representable(#[trigger] records@[j]),
        decreases records@.len() - i,
    {
        match record_to_dto(&records[i]) {
            Some(d) => history.push(d),
            None => return Err(UseCaseError::InvalidState(String::from_str("timestamp out of range"))),
        }
        i = i + 1;
    }
    Ok(
        StateMachineDto {
            id: String::from_str(id),
            current_state: sm.current().to_string(),
            history,
            is_terminal: sm.is_terminal(),
        },
    )
}

/// Some machine stored under `id` has `d` as its display form.
pub open spec fn describes_stored_machine<S: State>(id: Seq<char>, d: StateMachineDto) -> bool {
    exists|sm: StateMachine<S>| #[trigger] machine_dto_of(id, sm, d)
}

/// Use case for reading a state machine's status.
pub struct GetStateMachineUseCase<R> {
    repository: R,
}

impl<R> GetStateMachineUseCase<R> {
    /// The repository the use case works on.
    pub closed spec fn spec_repository(&self) -> R {
        self.repository
    }

    /// A use case over `repository`.
    pub fn new(repository: R) -> (r: Self)
        ensures
            r.spec_repository() == repository,
    {
        GetStateMachineUseCase { repository }
    }

    /// Loads the machine stored under `id` and gives its display form;
    /// `Ok(None)` when nothing is stored there.
    pub fn execute<S: State>(&self, id: &str) -> (r: Result<Option<StateMachineDto>, UseCaseError>)
        where
            R: StateMachineRepository<S>,
        ensures
            r matches Ok(Some(d)) ==> describes_stored_machine::<S>(id@, d),
            r matches Err(e) ==> e is Repository || (e matches UseCaseError::InvalidState(m) && m@
                == "timestamp out of range"@),
            exists|found: Result<Option<StateMachine<S>>, RepositoryError>|
                #[trigger] self.spec_repository().spec_find(id@, found) && status_outcome(id@, found, r),
    {
        let looked = self.repository.find_by_id(id);
        let ghost answer = looked;
        assert(self.spec_repository().spec_find(id@, answer));
        match looked {
            Err(e) => Err(UseCaseError::Repository(e)),
            Ok(None) => Ok(None),
            Ok(Some(sm)) => match machine_to_dto(id, &sm) {
                Ok(d) => {
                    assert(describes_stored_machine::<S>(id@, d));
                    Ok(Some(d))
                },
                Err(e) => Err(e),
            },
        }
    }
}

} // verus!
