//! RPC requests of the messages endpoint.
use vstd::prelude::*;
use crate::rpc::UserAuth;
use crate::text_message::Recipient;

verus! {

/// Send a raw payload message
#[derive(Debug)]
pub struct Send {
    auth: UserAuth,
    recipient: Recipient,
    service: String,
    payload: Vec<u8>,
}

/// Send a poll request to the message endpoint
///
/// Polling the API for changes might not be the most performant way
/// of getting new messages.  Instead, consider setting up a push
/// listener for your transport layer.
#[derive(Debug)]
pub struct Poll {
    auth: UserAuth,
    service: String,
}

/// Setup a listener/ push handler for messages
#[derive(Debug)]
pub struct Subscribe {
    auth: UserAuth,
    service: String,
    listener_id: String,
}

} // verus!
