//! RPC requests of the chat service: subscribing to a room, loading its
//! messages, and sending a message to it.
use vstd::prelude::*;
use crate::identity::Identity;
use crate::rpc::UserAuth;

verus! {

/// Chat rooms are named by an identity.
pub type RoomId = Identity;

/// Subscribe to the messages of a room.
#[derive(Debug, Clone, PartialEq, Eq)]
pub struct Subscribe {
    pub auth: UserAuth,
    pub room: RoomId,
}

/// Load the messages of a room.
#[derive(Debug, Clone, PartialEq, Eq)]
pub struct Get {
    pub auth: UserAuth,
    pub room: RoomId,
}

/// Send a text message to a room.
#[derive(Debug, Clone, PartialEq, Eq)]
pub struct Send {
    pub auth: UserAuth,
    pub room: RoomId,
    pub text: String,
}

} // verus!
