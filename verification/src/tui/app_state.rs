//! State management for the terminal interface.

use vstd::prelude::*;

verus! {

/// Represents the current state of the application.
#[derive(Debug, Clone, PartialEq, Eq)]
pub enum TuiState {
    /// User is entering the project name.
    Input {
        /// The name as typed so far.
        project_name: String,
    },
    /// User is confirming the project name.
    Confirm {
        /// The name to confirm.
        project_name: String,
    },
    /// Project creation is done.
    Done,
}

/// A state as contracts speak of it.
pub ghost enum StateModel {
    /// Entering the project name.
    Input(Seq<char>),
    /// Confirming the project name.
    Confirm(Seq<char>),
    /// Done.
    Done,
}

impl View for TuiState {
    type V = StateModel;

    open spec fn view(&self) -> StateModel {
        match self {
            TuiState::Input { project_name } => StateModel::Input(project_name@),
            TuiState::Confirm { project_name } => StateModel::Confirm(project_name@),
            TuiState::Done => StateModel::Done,
        }
    }
}

impl TuiState {
    /// Transition from input to confirm state; any other state stays.
    pub fn to_confirm(&self) -> (next: Self)
        ensures
            next@ == match self@ {
                StateModel::Input(name) => StateModel::Confirm(name),
                other => other,
            },
    {
        match self {
            TuiState::Input { project_name } => TuiState::Confirm {
                project_name: project_name.clone(),
            },
            TuiState::Confirm { project_name } => TuiState::Confirm {
                project_name: project_name.clone(),
            },
            TuiState::Done => TuiState::Done,
        }
    }

    /// Transition from confirm to input state (edit); any other state stays.
    pub fn to_input(&self) -> (next: Self)
        ensures
            next@ == match self@ {
                StateModel::Confirm(name) => StateModel::Input(name),
                other => other,
            },
    {
        match self {
            TuiState::Confirm { project_name } => TuiState::Input {
                project_name: project_name.clone(),
            },
            TuiState::Input { project_name } => TuiState::Input {
                project_name: project_name.clone(),
            },
            TuiState::Done => TuiState::Done,
        }
    }

    /// Transition to done state.
    pub fn to_done(&self) -> (next: Self)
        ensures
            next@ == StateModel::Done,
    {
        TuiState::Done
    }
}

} // verus!
