//! The control-plane side of the channel. Each call opens its own
//! connection, sends one command and reads one response; the client holds
//! nothing but the channel's address, so callers may share it freely.
use vstd::prelude::*;

use crate::error::ProtocolError;
use crate::messages::DataResponse;

verus! {

/// A client of the data plane's control channel.
#[derive(Clone, Debug)]
pub struct DataPlaneClient {
    socket_path: String,
}

impl DataPlaneClient {
    /// The address of the channel.
    pub closed spec fn path_spec(&self) -> Seq<char> {
        self.socket_path@
    }

    /// A client for the channel at `socket_path`.
    pub fn new(socket_path: &str) -> (r: DataPlaneClient)
        ensures
            r.path_spec() == socket_path@,
    {
        DataPlaneClient { socket_path: socket_path.to_owned() }
    }

    /// The address of the channel.
    pub fn socket_path(&self) -> (r: &str)
        ensures
            r@ == self.path_spec(),
    {
        self.socket_path.as_str()
    }
}

/// The outcome of a call that expects `Success` (adding or removing a
/// peer), given what the exchange returned.
pub open spec fn expected_success(reply: Result<DataResponse, ProtocolError>) -> Result<
    (),
    ProtocolError,
> {
    match reply {
        Ok(DataResponse::Success) => Ok(()),
        Ok(other) => Err(ProtocolError::UnexpectedResponse(other)),
        Err(e) => Err(e),
    }
}

/// Accepts only a `Success` reply; any other reply is an unexpected
/// response, and a failed exchange passes its error on.
pub fn expect_success(reply: Result<DataResponse, ProtocolError>) -> (r: Result<(), ProtocolError>)
    ensures
        r == expected_success(reply),
{
    match reply {
        Ok(DataResponse::Success) => Ok(()),
        Ok(other) => Err(ProtocolError::UnexpectedResponse(other)),
        Err(e) => Err(e),
    }
}

} // verus!
