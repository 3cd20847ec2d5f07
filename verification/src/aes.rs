//! Symmetric sealing of records, used to bootstrap the unlocking of the
//! user table: a key derived from a user's password and salt seals the
//! framed form of a record under a fresh random nonce.
use vstd::prelude::*;
use crate::wire::{WireError, decode, encode, frame, unframe};

verus! {

/// Number of bytes in a key.
pub const KEY_BYTES: usize = 32;

/// Number of bytes in a nonce.
pub const NONCE_BYTES: usize = 24;

/// Number of bytes by which a sealed message is longer than the message.
pub const MAC_BYTES: usize = 16;

/// The key that the password `pw` with the salt `salt` expands to.
pub uninterp spec fn password_key(pw: Seq<char>, salt: Seq<char>) -> Seq<u8>;

/// What sealing `m` under the nonce `n` and the key `k` gives.
pub uninterp spec fn sealed(m: Seq<u8>, n: Seq<u8>, k: Seq<u8>) -> Seq<u8>;

/// What opening `c` under the nonce `n` and the key `k` gives, if `c` verifies.
pub uninterp spec fn opened(c: Seq<u8>, n: Seq<u8>, k: Seq<u8>) -> Option<Seq<u8>>;

/// `keybob::Key::from_pw` for a 32-byte (`KeyType::Aes128`) key: PBKDF2 with
/// an HMAC over Blake2b expands the password, salted with `salt`, into 32
/// bytes. The result depends on the password and the salt alone, and is named
/// by `password_key`.
#[verifier::external_body]
fn keybob_from_pw(pw: &str, salt: &str) -> (k: Vec<u8>)
    ensures
        k@ == password_key(pw@, salt@),
        k@.len() == KEY_BYTES,
{
    keybob::Key::from_pw(keybob::KeyType::Aes128, pw, salt).as_slice().to_vec()
}

/// `sodiumoxide::crypto::secretbox::gen_nonce`: a nonce of random bytes.
/// Nothing is stated of its bytes.
#[verifier::external_body]
fn gen_nonce() -> (n: [u8; 24]) {
    sodiumoxide::crypto::secretbox::gen_nonce().0
}

/// `sodiumoxide::crypto::secretbox::seal` (XSalsa20-Poly1305): the result is
/// named by `sealed`, is `MAC_BYTES` longer than the message, and `open` with
/// the same nonce and key gives the message back.
#[verifier::external_body]
fn secretbox_seal(m: &[u8], n: &[u8; 24], k: &[u8; 32]) -> (c: Vec<u8>)
    ensures
        c@ == sealed(m@, n@, k@),
        c@.len() == m@.len() + MAC_BYTES,
        opened(c@, n@, k@) == Some(m@),
{
    sodiumoxide::crypto::secretbox::seal(
        m,
        &sodiumoxide::crypto::secretbox::Nonce(*n),
        &sodiumoxide::crypto::secretbox::Key(*k),
    )
}

/// `sodiumoxide::crypto::secretbox::open`: verifies and decrypts `c`; the
/// result is named by `opened`. A ciphertext shorter than `MAC_BYTES` never verifies.
#[verifier::external_body]
fn secretbox_open(c: &[u8], n: &[u8; 24], k: &[u8; 32]) -> (r: Result<Vec<u8>, ()>)
    ensures
        r is Ok <==> opened(c@, n@, k@) is Some,
        r matches Ok(m) ==> opened(c@, n@, k@) == Some(m@),
        c@.len() < MAC_BYTES ==> r is Err,
{
    sodiumoxide::crypto::secretbox::open(
        c,
        &sodiumoxide::crypto::secretbox::Nonce(*n),
        &sodiumoxide::crypto::secretbox::Key(*k),
    )
}

/// A symmetric key. It has no `Debug` form, so that its bytes are never
/// printed.
#[derive(Clone, Copy, PartialEq, Eq)]
pub struct Key {
    bytes: [u8; 32],
}

impl View for Key {
    type V = Seq<u8>;

    closed spec fn view(&self) -> Seq<u8> {
        self.bytes@
    }
}

/// A sealed record and the nonce it was sealed under.
#[derive(Debug, Clone, PartialEq, Eq)]
pub struct CipherText {
    pub nonce: Vec<u8>,
    pub data: Vec<u8>,
}

/// Errors of sealing and opening records.
#[derive(Debug, Clone, PartialEq, Eq)]
pub enum Error {
    InternalError { msg: String },
    Wire(WireError),
}

/// The abstract content of an [`Error`].
pub ghost enum ErrorView {
    InternalError(Seq<char>),
    Wire(WireError),
}

impl View for Error {
    type V = ErrorView;

    open spec fn view(&self) -> ErrorView {
        match self {
            Error::InternalError { msg } => ErrorView::InternalError(msg@),
            Error::Wire(w) => ErrorView::Wire(*w),
        }
    }
}

/// What verifying and decrypting the ciphertext `ct` with the key `k` gives.
pub open spec fn open_bytes_outcome(k: Seq<u8>, ct: CipherText) -> Result<Seq<u8>, ErrorView> {
    if ct.nonce@.len() != NONCE_BYTES {
        Err(ErrorView::InternalError("Failed to read nonce!"@))
    } else {
        match opened(ct.data@, ct.nonce@, k) {
            None => Err(ErrorView::InternalError("Failed to decrypt data"@)),
            Some(clear) => Ok(clear),
        }
    }
}

/// What opening the sealed record `ct` with the key `k` gives.
pub open spec fn open_outcome(k: Seq<u8>, ct: CipherText) -> Result<Seq<u8>, ErrorView> {
    match open_bytes_outcome(k, ct) {
        Err(e) => Err(e),
        Ok(clear) => match unframe(clear) {
            Some(v) => Ok(v),
            None => Err(ErrorView::Wire(WireError::Truncated)),
        },
    }
}

/// Whether `ct` is a sealing of the record `data` with the key `k`.
pub open spec fn seals(k: Seq<u8>, data: Seq<u8>, ct: CipherText) -> bool {
    &&& ct.nonce@.len() == NONCE_BYTES
    &&& ct.data@.len() == data.len() + 8 + MAC_BYTES
    &&& ct.data@ == sealed(frame(data), ct.nonce@, k)
    &&& opened(ct.data@, ct.nonce@, k) == Some(frame(data))
}

impl Key {
    /// The key's bytes.
    pub fn as_bytes(&self) -> (b: &[u8])
        ensures
            b@ == self@,
    {
        self.bytes.as_slice()
    }

    /// A key of exactly `KEY_BYTES` bytes.
    pub fn from_slice(bs: &[u8]) -> (r: Option<Key>)
        ensures
            r is Some <==> bs@.len() == KEY_BYTES,
            r matches Some(k) ==> k@ == bs@,
    {
        if bs.len() != KEY_BYTES {
            return None;
        }
        let mut a: [u8; 32] = [0u8; 32];
        let mut i: usize = 0;
        while i < KEY_BYTES
            invariant
                i <= KEY_BYTES,
                bs@.len() == KEY_BYTES,
                forall|j: int| 0 <= j < i ==> a@[j] == bs@[j],
            decreases KEY_BYTES - i,
        {
            a[i] = bs[i];
            i = i + 1;
        }
        assert(a@ =~= bs@);
        Some(Key { bytes: a })
    }

    /// The key that a user's password expands to, salted with `salt`.
    pub fn from_pw(pw: &str, salt: &str) -> (k: Key)
        ensures
            k@ == password_key(pw@, salt@),
    {
        let kb = keybob_from_pw(pw, salt);
        match Key::from_slice(kb.as_slice()) {
            Some(k) => k,
            None => {
                proof {
                    assert(false);
                }
                Key { bytes: [0u8; 32] }
            },
        }
    }

    /// Encrypts and authenticates already encoded bytes under a fresh random
    /// nonce, which the ciphertext carries.
    pub fn seal_bytes(&self, encoded: &[u8]) -> (ct: CipherText)
        ensures
            seals_bytes(self@, encoded@, ct),
    {
        let nonce = gen_nonce();
        let data = secretbox_seal(encoded, &nonce, &self.bytes);
        let nonce_bytes = vstd::slice::slice_to_vec(nonce.as_slice());
        CipherText { nonce: nonce_bytes, data }
    }

    /// Seals a record: frames it, then encrypts and authenticates it under a
    /// fresh random nonce, which the ciphertext carries.
    pub fn seal(&self, data: &[u8]) -> (r: Result<CipherText, Error>)
        ensures
            r matches Ok(ct) && seals(self@, data@, ct),
    {
        let encoded = match encode(data) {
            Ok(e) => e,
            Err(e) => {
                return Err(Error::Wire(e));
            },
        };
        proof {
            vstd::bytes::lemma_auto_spec_u64_to_from_le_bytes();
            assert(vstd::bytes::spec_u64_to_le_bytes(data@.len() as u64).len() == 8);
        }
        Ok(self.seal_bytes(encoded.as_slice()))
    }

    /// Verifies and decrypts a ciphertext, giving the encoded bytes it holds.
    pub fn open_bytes(&self, data: &CipherText) -> (r: Result<Vec<u8>, Error>)
        ensures
            match r {
                Ok(v) => open_bytes_outcome(self@, *data) == Ok::<Seq<u8>, ErrorView>(v@),
                Err(e) => open_bytes_outcome(self@, *data) == Err::<Seq<u8>, ErrorView>(e@),
            },
    {
        if data.nonce.len() != NONCE_BYTES {
            return Err(Error::InternalError { msg: String::from_str("Failed to read nonce!") });
        }
        let mut nonce: [u8; 24] = [0u8; 24];
        let mut i: usize = 0;
        while i < NONCE_BYTES
            invariant
                i <= NONCE_BYTES,
                data.nonce@.len() == NONCE_BYTES,
                forall|j: int| 0 <= j < i ==> nonce@[j] == data.nonce@[j],
            decreases NONCE_BYTES - i,
        {
            nonce[i] = data.nonce[i];
            i = i + 1;
        }
        assert(nonce@ =~= data.nonce@);
        match secretbox_open(data.data.as_slice(), &nonce, &self.bytes) {
            Ok(c) => Ok(c),
            Err(_) => Err(Error::InternalError { msg: String::from_str("Failed to decrypt data") }),
        }
    }

    /// Opens a sealed record: reads the nonce, verifies and decrypts the
    /// data, and reads the record out of its framing.
    pub fn open(&self, data: &CipherText) -> (r: Result<Vec<u8>, Error>)
        ensures
            match r {
                Ok(v) => open_outcome(self@, *data) == Ok::<Seq<u8>, ErrorView>(v@),
                Err(e) => open_outcome(self@, *data) == Err::<Seq<u8>, ErrorView>(e@),
            },
    {
        let clear = match self.open_bytes(data) {
            Ok(c) => c,
            Err(e) => {
                return Err(e);
            },
        };
        match decode(&clear) {
            Ok(v) => Ok(v),
            Err(e) => Err(Error::Wire(e)),
        }
    }
}

/// Whether `ct` holds the encoded bytes `encoded`, sealed with the key `k`.
pub open spec fn seals_bytes(k: Seq<u8>, encoded: Seq<u8>, ct: CipherText) -> bool {
    &&& ct.nonce@.len() == NONCE_BYTES
    &&& ct.data@.len() == encoded.len() + MAC_BYTES
    &&& ct.data@ == sealed(encoded, ct.nonce@, k)
    &&& opened(ct.data@, ct.nonce@, k) == Some(encoded)
}

/// Opening what `Key::seal_bytes` wrote, with the same key, gives the encoded
/// bytes back.
pub proof fn lemma_seal_bytes_open_roundtrip(k: Key, encoded: Seq<u8>, ct: CipherText)
    requires
        seals_bytes(k@, encoded, ct),
    ensures
        open_bytes_outcome(k@, ct) == Ok::<Seq<u8>, ErrorView>(encoded),
{
}

/// Opening what `Key::seal` wrote for a record, with the same key, gives the
/// record back.
pub proof fn lemma_seal_open_roundtrip(k: Key, data: Seq<u8>, ct: CipherText)
    requires
        data.len() <= usize::MAX,
        seals(k@, data, ct),
    ensures
        open_outcome(k@, ct) == Ok::<Seq<u8>, ErrorView>(data),
{
    crate::wire::lemma_unframe_frame(data);
}

/// The same password and salt always give the same key.
pub proof fn lemma_from_pw_deterministic(k1: Key, k2: Key, pw: Seq<char>, salt: Seq<char>)
    requires
        k1@ == password_key(pw, salt),
        k2@ == password_key(pw, salt),
    ensures
        k1 == k2,
{
    assert(k1.bytes =~= k2.bytes);
}

} // verus!
