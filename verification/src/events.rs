//! UI-visible notifications. The components of this crate record events as
//! plain values; the surrounding application forwards them to its observer
//! fire-and-forget, so workflow correctness never depends on delivery.

use vstd::prelude::*;

verus! {

/// A notification for the UI observer.
pub enum UiEvent {
    /// A verification code is needed to continue an authentication flow.
    ChallengeRequired,
    /// An operation entered a phase.
    PhaseStarted { operation: String, phase: String },
    /// A phase of an operation finished successfully.
    PhaseSucceeded { operation: String, phase: String },
    /// An operation failed in the named phase and accepts no further work.
    OperationFailed { operation: String, phase: String, message: String },
    /// An operation finished successfully.
    OperationCompleted { operation: String },
}

/// The mathematical shape of a [`UiEvent`].
pub enum EventModel {
    ChallengeRequired,
    PhaseStarted { operation: Seq<char>, phase: Seq<char> },
    PhaseSucceeded { operation: Seq<char>, phase: Seq<char> },
    OperationFailed { operation: Seq<char>, phase: Seq<char>, message: Seq<char> },
    OperationCompleted { operation: Seq<char> },
}

impl View for UiEvent {
    type V = EventModel;

    open spec fn view(&self) -> EventModel {
        match self {
            UiEvent::ChallengeRequired => EventModel::ChallengeRequired,
            UiEvent::PhaseStarted { operation, phase } => EventModel::PhaseStarted {
                operation: operation@,
                phase: phase@,
            },
            UiEvent::PhaseSucceeded { operation, phase } => EventModel::PhaseSucceeded {
                operation: operation@,
                phase: phase@,
            },
            UiEvent::OperationFailed { operation, phase, message } => EventModel::OperationFailed {
                operation: operation@,
                phase: phase@,
                message: message@,
            },
            UiEvent::OperationCompleted { operation } => EventModel::OperationCompleted {
                operation: operation@,
            },
        }
    }
}

} // verus!
