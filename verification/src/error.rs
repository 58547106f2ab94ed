use vstd::prelude::*;

verus! {

/// The collaborator call that failed, for a `AppError::Collaborator` error.
#[derive(Clone, Copy, PartialEq, Eq, Structural, Debug)]
pub enum CollabCall {
    /// Starting background simulation activity.
    Start,
    /// Draining pending simulation messages.
    Drain,
    /// Injecting a periodic stochastic world event.
    Event,
    /// One-time initialization from the galaxy file.
    Init,
}

/// A fatal error of the run: every fallible operation inside the loop
/// propagates upward and terminates the run immediately.
#[derive(Clone, Copy, PartialEq, Eq, Structural, Debug)]
pub enum AppError {
    /// The mandatory initialization path was missing or unusable.
    Config,
    /// Polling or reading the input source failed.
    Input,
    /// A simulation-engine call failed; carries which call it was.
    Collaborator(CollabCall),
}

impl AppError {
    /// The fixed message of each error, shown when the run terminates.
    pub fn message(&self) -> (r: String)
        ensures
            *self == AppError::Config ==> r@ == "Set INPUT_FILE in .env or env vars"@,
            *self == AppError::Input ==> r@ == "Handle events error"@,
            *self == AppError::Collaborator(CollabCall::Init) ==> r@
                == "Failed to initialize galaxy"@,
            *self == AppError::Collaborator(CollabCall::Start) ==> r@
                == "Failed to start simulation"@,
            *self == AppError::Collaborator(CollabCall::Drain) ==> r@
                == "Failed to handle game messages"@,
            *self == AppError::Collaborator(CollabCall::Event) ==> r@
                == "Failed to send sunray or asteroid"@,
    {
        match self {
            AppError::Config => "Set INPUT_FILE in .env or env vars".to_string(),
            AppError::Input => "Handle events error".to_string(),
            AppError::Collaborator(CollabCall::Init) => "Failed to initialize galaxy".to_string(),
            AppError::Collaborator(CollabCall::Start) => "Failed to start simulation".to_string(),
            AppError::Collaborator(CollabCall::Drain) => {
                "Failed to handle game messages".to_string()
            },
            AppError::Collaborator(CollabCall::Event) => {
                "Failed to send sunray or asteroid".to_string()
            },
        }
    }
}

} // verus!
