//! Wire framing of byte strings: a byte string is written as its length
//! (eight bytes, little-endian) followed by its bytes, the form in which the
//! binary serializer writes a sequence.
use vstd::prelude::*;
use vstd::bytes::{spec_u64_from_le_bytes, spec_u64_to_le_bytes};

verus! {

/// The error type of the binary serializer.
#[verifier::external_type_specification]
#[verifier::external_body]
pub struct ExBincodeErrorKind(bincode::ErrorKind);

/// The framed form of a byte string.
pub open spec fn frame(data: Seq<u8>) -> Seq<u8> {
    spec_u64_to_le_bytes(data.len() as u64) + data
}

/// The length that the first eight bytes of `bytes` announce.
pub open spec fn announced_len(bytes: Seq<u8>) -> int {
    spec_u64_from_le_bytes(bytes.take(8)) as int
}

/// The byte string framed at the start of `bytes`, if all of it is there;
/// bytes after it are ignored.
pub open spec fn unframe(bytes: Seq<u8>) -> Option<Seq<u8>> {
    if bytes.len() >= 8 && announced_len(bytes) <= bytes.len() - 8 {
        Some(bytes.subrange(8, 8 + announced_len(bytes)))
    } else {
        None
    }
}

/// `bincode::serialize` of a byte string. With bincode's default options
/// (fixed-width integers, little-endian, no size limit)
/// a slice is written as a sequence: its length as a `u64`, then each byte;
/// a sequence of known length never fails to serialize.
#[verifier::external_body]
fn bincode_serialize(data: &[u8]) -> (r: Result<Vec<u8>, bincode::Error>)
    ensures
        r is Ok,
        r matches Ok(v) ==> v@ == frame(data@),
{
    bincode::serialize(data)
}

/// `bincode::deserialize` of a byte vector. With the default options a
/// sequence is read as a `u64` length and then that many bytes; the read
/// fails where the input ends first, and bytes after the sequence are
/// allowed. What the error holds is not stated.
#[verifier::external_body]
fn bincode_deserialize(bytes: &[u8]) -> (r: Result<Vec<u8>, bincode::Error>)
    ensures
        r is Ok <==> unframe(bytes@) is Some,
        r matches Ok(v) ==> v@ == unframe(bytes@)->0,
{
    bincode::deserialize::<Vec<u8>>(bytes)
}

/// Why a framed byte string could not be read.
#[derive(Debug, Clone, Copy, PartialEq, Eq)]
pub enum WireError {
    /// The input ends before the framed bytes do.
    Truncated,
}

/// Writes a byte string in its framed form.
pub fn encode(data: &[u8]) -> (r: Result<Vec<u8>, WireError>)
    ensures
        r matches Ok(v) && v@ == frame(data@),
{
    match bincode_serialize(data) {
        Ok(v) => Ok(v),
        Err(_) => Err(WireError::Truncated),
    }
}

/// Reads the byte string framed at the start of `data`.
pub fn decode(data: &Vec<u8>) -> (r: Result<Vec<u8>, WireError>)
    ensures
        r is Ok <==> unframe(data@) is Some,
        r matches Ok(v) ==> v@ == unframe(data@)->0,
        r matches Err(e) ==> e == WireError::Truncated,
{
    match bincode_deserialize(data.as_slice()) {
        Ok(v) => Ok(v),
        Err(_) => Err(WireError::Truncated),
    }
}

/// Reading a framed byte string gives back the bytes that were framed.
pub proof fn lemma_unframe_frame(data: Seq<u8>)
    requires
        data.len() <= u64::MAX,
    ensures
        unframe(frame(data)) == Some(data),
{
    vstd::bytes::lemma_auto_spec_u64_to_from_le_bytes();
    let f = frame(data);
    let n = data.len() as u64;
    assert(spec_u64_to_le_bytes(n).len() == 8);
    assert(f.take(8) =~= spec_u64_to_le_bytes(n));
    assert(announced_len(f) == data.len());
    assert(f.subrange(8, 8 + data.len() as int) =~= data);
}

/// What reading takes from the input, framed again, is the part of the input it read.
pub proof fn lemma_frame_unframe(bytes: Seq<u8>)
    requires
        unframe(bytes) is Some,
    ensures
        frame(unframe(bytes)->0) == bytes.take(8 + announced_len(bytes)),
{
    vstd::bytes::lemma_auto_spec_u64_to_from_le_bytes();
    let d = unframe(bytes)->0;
    let head = bytes.take(8);
    assert(head.len() == 8);
    let n = spec_u64_from_le_bytes(head);
    assert(spec_u64_to_le_bytes(n) == head);
    assert(d.len() == n);
    assert(frame(d) =~= bytes.take(8 + announced_len(bytes)));
}

} // verus!
