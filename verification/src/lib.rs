//! Core data model and rules of the qaul web and RPC layers, and the
//! storage-side sealing of records: identities and their hex form,
//! text-message documents, JSON envelopes, byte framing and
//! symmetric encryption.

pub mod identity;
pub mod str_map;
pub mod document;
pub mod text_message;
pub mod rpc;
pub mod wire;
pub mod aes;
pub mod chat;
pub mod messages;
