//! Plain data carried between layers.
use vstd::prelude::*;

verus! {

/// Command to transition a state machine.
#[derive(Debug, Clone)]
pub struct TransitionCommand {
    pub id: String,
    pub target_state: String,
    pub skip_validation: bool,
}

/// A transition record in display form.
#[derive(Debug, Clone)]
pub struct TransitionRecordDto {
    pub from: String,
    pub to: String,
    pub skipped: Vec<String>,
    pub timestamp: String,
}

/// A state machine in display form.
#[derive(Debug, Clone)]
pub struct StateMachineDto {
    pub id: String,
    pub current_state: String,
    pub history: Vec<TransitionRecordDto>,
    pub is_terminal: bool,
}

} // verus!
