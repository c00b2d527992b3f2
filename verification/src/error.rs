//! The errors a session reports.

use vstd::prelude::*;

verus! {

/// Why a byte buffer is not a frame of the expected artifact.
#[derive(Debug, Clone, Copy, PartialEq, Eq, Structural)]
pub enum DecodeError {
    /// The buffer is shorter than a frame header.
    Truncated,
    /// The buffer does not start with the frame marker.
    BadMagic,
    /// The frame holds another kind of artifact, or an unknown one.
    WrongKind,
    /// The payload length in the header differs from the number of bytes
    /// that follow the header.
    LengthMismatch,
}

/// The error of a session operation.
///
/// A proof that does not hold is not an error: verification then succeeds
/// with `false`.
#[derive(Debug)]
pub enum MoproError {
    /// The proving engine failed; the message is the engine's own.
    BackendError(String),
    /// The operation needs a circuit, and the session has not been set up.
    NotReadyError,
    /// A buffer handed to the session is not a frame of the expected artifact.
    DecodeError(DecodeError),
}

/// What an error holds, with the engine's message as a sequence of
/// characters.
pub enum MoproErrorView {
    BackendError(Seq<char>),
    NotReadyError,
    DecodeError(DecodeError),
}

impl View for MoproError {
    type V = MoproErrorView;

    open spec fn view(&self) -> MoproErrorView {
        match *self {
            MoproError::BackendError(message) => MoproErrorView::BackendError(message@),
            MoproError::NotReadyError => MoproErrorView::NotReadyError,
            MoproError::DecodeError(reason) => MoproErrorView::DecodeError(reason),
        }
    }
}

/// What the outcome of a session operation holds.
pub open spec fn outcome_view<T: View>(outcome: Result<T, MoproError>) -> Result<
    T::V,
    MoproErrorView,
> {
    match outcome {
        Ok(value) => Ok(value@),
        Err(error) => Err(error@),
    }
}

/// The error type of the binding surface.
#[derive(Debug)]
pub enum FFIError {
    /// A session operation failed.
    MoproError(MoproError),
    /// A value could not be carried across the binding; the message says
    /// which.
    SerializationError(String),
}

impl From<MoproError> for FFIError {
    fn from(error: MoproError) -> (wrapped: Self) {
        FFIError::MoproError(error)
    }
}

impl vstd::std_specs::convert::FromSpecImpl<MoproError> for FFIError {
    open spec fn obeys_from_spec() -> bool {
        true
    }

    open spec fn from_spec(error: MoproError) -> Self {
        FFIError::MoproError(error)
    }
}

} // verus!
