use vstd::prelude::*;

verus! {

/// The kinds of failure that a punch operation can end with.
#[derive(Debug, PartialEq, Eq, Structural, Clone, Copy)]
pub enum PunchTaskError {
    /// A storage, network or serialisation failure.
    InternalError,
    /// A task of that name is already in progress.
    TaskAlreadyInProgress,
    /// No record of that name overlaps the requested window.
    TaskNotFound,
    /// No task of that name is in progress.
    InProgressTaskNotFound,
    /// The credential was rejected or has expired.
    AuthInvalid,
}

/// A failure of the service: its kind, and the text that came with it (the
/// body of the reply, or what kept the request from being answered).
pub struct RemoteError {
    pub kind: PunchTaskError,
    pub message: String,
}

impl PunchTaskError {
    /// The HTTP status with which the service answers this failure.
    pub open spec fn spec_status_code(self) -> u16 {
        match self {
            PunchTaskError::InternalError => 500,
            PunchTaskError::TaskAlreadyInProgress => 400,
            PunchTaskError::InProgressTaskNotFound => 400,
            PunchTaskError::TaskNotFound => 404,
            PunchTaskError::AuthInvalid => 401,
        }
    }

    pub fn status_code(&self) -> (r: u16)
        ensures
            r == self.spec_status_code(),
    {
        match self {
            PunchTaskError::InternalError => 500,
            PunchTaskError::TaskAlreadyInProgress => 400,
            PunchTaskError::InProgressTaskNotFound => 400,
            PunchTaskError::TaskNotFound => 404,
            PunchTaskError::AuthInvalid => 401,
        }
    }
}

} // verus!
