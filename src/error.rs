//! The ways a call over the control channel can fail.
use vstd::prelude::*;

use crate::frame::FrameError;
use crate::messages::DataResponse;

verus! {

/// A failure of one call over the control channel. Each aborts that call
/// only and reaches its caller; there are no retries.
#[derive(Clone, Debug, PartialEq, Eq)]
pub enum ProtocolError {
    /// Connecting, reading or writing failed.
    Transport(String),
    /// A frame was truncated or declared too large a payload.
    Framing(FrameError),
    /// A payload matched no known message layout.
    Deserialize(String),
    /// The reply was not the variant the call expected.
    UnexpectedResponse(DataResponse),
}

} // verus!
