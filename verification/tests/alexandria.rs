use qaul_models::aes::{CipherText, Error, Key, KEY_BYTES, MAC_BYTES, NONCE_BYTES};
use qaul_models::wire::{decode, encode, WireError};

#[test]
fn key_is_key() {
    let k1 = Key::from_pw("password", "salt");
    let k2 = Key::from_pw("password", "salt");
    assert!(k1 == k2);
}

#[test]
fn key_from_pw_is_the_derived_key() {
    let k = Key::from_pw("password", "salt");
    let expected = keybob::Key::from_pw(keybob::KeyType::Aes128, "password", "salt");
    assert_eq!(k.as_bytes(), expected.as_slice());
    assert_eq!(k.as_bytes().len(), KEY_BYTES);
    assert!(Key::from_pw("password", "salt") != Key::from_pw("password", "pepper"));
    assert!(Key::from_pw("password", "salt") != Key::from_pw("passw0rd", "salt"));
}

#[test]
fn key_from_slice_needs_exact_length() {
    assert!(Key::from_slice(&[7u8; 31]).is_none());
    assert!(Key::from_slice(&[7u8; 33]).is_none());
    let k = Key::from_slice(&[7u8; 32]).unwrap();
    assert_eq!(k.as_bytes(), &[7u8; 32][..]);
}

#[test]
fn encode_simple() {
    let id: Vec<u8> = (0u8..16).map(|i| i.wrapping_mul(37).wrapping_add(5)).collect();
    let enc = encode(&id).unwrap();
    let dec = decode(&enc).unwrap();
    assert_eq!(dec, id);
}

#[test]
fn encode_writes_length_then_bytes() {
    let enc = encode(&[0xaa, 0xbb, 0xcc]).unwrap();
    assert_eq!(enc, vec![3, 0, 0, 0, 0, 0, 0, 0, 0xaa, 0xbb, 0xcc]);
    assert_eq!(encode(&[]).unwrap(), vec![0u8; 8]);
}

#[test]
fn decode_ignores_trailing_bytes() {
    let dec = decode(&vec![2, 0, 0, 0, 0, 0, 0, 0, 9, 8, 7, 6]).unwrap();
    assert_eq!(dec, vec![9, 8]);
}

#[test]
fn decode_truncated_input() {
    assert_eq!(decode(&vec![1, 0, 0]), Err(WireError::Truncated));
    assert_eq!(decode(&vec![4, 0, 0, 0, 0, 0, 0, 0, 1, 2, 3]), Err(WireError::Truncated));
    assert_eq!(decode(&vec![0, 0, 0, 0, 0, 0, 0, 0]), Ok(vec![]));
}

#[test]
fn seal_then_open_gives_back_the_record() {
    let key = Key::from_pw("correct horse", "battery staple");
    let record = b"the user table".to_vec();
    let ct = key.seal(&record).unwrap();
    assert_eq!(ct.nonce.len(), NONCE_BYTES);
    // framing adds eight bytes, authentication adds the tag
    assert_eq!(ct.data.len(), record.len() + 8 + MAC_BYTES);
    assert_ne!(&ct.data[MAC_BYTES..MAC_BYTES + record.len()], &record[..]);
    assert_eq!(key.open(&ct).unwrap(), record);
}

#[test]
fn open_rejects_a_short_nonce() {
    let key = Key::from_pw("password", "salt");
    let ct = CipherText { nonce: vec![0u8; 12], data: vec![0u8; 40] };
    assert_eq!(
        key.open(&ct),
        Err(Error::InternalError { msg: "Failed to read nonce!".to_string() })
    );
}

#[test]
fn open_rejects_a_wrong_key_or_tampered_data() {
    let key = Key::from_pw("password", "salt");
    let other = Key::from_pw("password", "other salt");
    let mut ct = key.seal(&[1, 2, 3, 4]).unwrap();
    let failed = Err(Error::InternalError { msg: "Failed to decrypt data".to_string() });
    assert_eq!(other.open(&ct), failed);
    ct.data[0] ^= 1;
    assert_eq!(key.open(&ct), failed);
    let short = CipherText { nonce: ct.nonce.clone(), data: vec![1, 2, 3] };
    assert_eq!(key.open(&short), failed);
}

#[test]
fn open_reports_unframed_contents() {
    let key = Key::from_pw("password", "salt");
    let ct = key.seal_bytes(&[1, 2]);
    assert_eq!(key.open_bytes(&ct), Ok(vec![1, 2]));
    assert_eq!(key.open(&ct), Err(Error::Wire(WireError::Truncated)));
}

#[test]
fn sealed_lengths() {
    let key = Key::from_pw("password", "salt");
    let ct = key.seal_bytes(&[9u8; 5]);
    assert_eq!(ct.data.len(), 5 + MAC_BYTES);
    let ct = key.seal(&[9u8; 5]).unwrap();
    assert_eq!(ct.data.len(), 5 + 8 + MAC_BYTES);
}
