//! The server's part in one exchange, between the frame that was read and
//! the frame to write: decode the request and plan the action on the store;
//! then, once the store has reported, word the response and encode it.

use vstd::prelude::*;
use crate::codec::deserialize_request;
use crate::codec::parse_request;
use crate::codec::response_fits;
use crate::codec::response_frame;
use crate::codec::serialize_response;
use crate::dispatch::action_for;
use crate::dispatch::plan_request;
use crate::dispatch::respond;
use crate::dispatch::response_for;
use crate::dispatch::StoreAction;
use crate::dispatch::StoreOutcome;
use crate::message::ProtocolError;
use crate::message::Request;
use crate::message::RequestView;

verus! {

/// A request that was read, with the action on the store that answers it.
#[derive(Clone, Debug, PartialEq, Eq)]
pub struct Pending {
    pub request: Request,
    pub action: StoreAction,
}

/// Reads the request that a frame holds and plans its action. A frame that
/// holds no request is refused with the error of the decoder, and nothing
/// is planned.
pub fn accept_frame(frame: &Vec<u8>) -> (res: Result<Pending, ProtocolError>)
    ensures
        match res {
            Ok(pending) => parse_request(frame@) == Ok::<_, ProtocolError>(pending.request@)
                && pending.action@ == action_for(pending.request@),
            Err(e) => parse_request(frame@) == Err::<RequestView, _>(e),
        },
{
    match deserialize_request(frame) {
        Ok(request) => {
            let action = plan_request(&request);
            Ok(Pending { request, action })
        },
        Err(e) => Err(e),
    }
}

/// Writes the frame that answers `request`, from what the store reported of
/// its action. Fails, with `OversizedField`, exactly when a field of the
/// response is longer than a length prefix can announce.
pub fn answer(request: &Request, outcome: StoreOutcome) -> (res: Result<Vec<u8>, ProtocolError>)
    ensures
        res is Ok <==> response_fits(response_for(request.filename@, outcome)),
        res matches Ok(frame) ==> frame@ == response_frame(
            response_for(request.filename@, outcome),
        ),
        res matches Err(e) ==> e == ProtocolError::OversizedField,
{
    let response = respond(request, outcome);
    serialize_response(&response)
}

} // verus!
