use qaul_models::document::{
    identifier_as_kind, ObjectConversionError, DocumentError, Identifier, Link, OptionalVec, Relationship, ResourceObject,
};
use qaul_models::identity::{from_identity, identity_from_text, Identity};
use qaul_models::str_map::StrMap;
use qaul_models::text_message::{
    into_identity, ApiError, QaulMessage, Recipient, TextMessage, TextPayload, Trust,
};

fn ident(seed: u8) -> Identity {
    let mut bytes = [0u8; 16];
    for (i, b) in bytes.iter_mut().enumerate() {
        *b = seed.wrapping_mul(31).wrapping_add(i as u8 * 17);
    }
    Identity { bytes }
}

fn message(recipient: Recipient) -> QaulMessage {
    QaulMessage {
        id: ident(1),
        sender: ident(2),
        recipient,
        sign: Trust::Unverified,
        payload: TextPayload { text: "hello qaul".to_string() },
    }
}

fn user(id: &str) -> Identifier {
    Identifier::new(id.to_string(), "user".to_string())
}

fn doc_with(rel: &str, data: OptionalVec<Identifier>) -> ResourceObject<TextMessage> {
    let mut ro = ResourceObject::new("text_message".to_string(), "x".to_string(), None);
    let mut rels = StrMap::new();
    rels.insert(rel.to_string(), Relationship { data });
    ro.relationships = Some(rels);
    ro
}

#[test]
fn identity_hex_text() {
    let id = Identity { bytes: [0, 1, 2, 0x0f, 0x10, 0xab, 0xcd, 0xef, 0xff, 9, 10, 11, 12, 13, 14, 15] };
    let s = from_identity(&id);
    assert_eq!(s, "0001020f10abcdefff090a0b0c0d0e0f");
    assert_eq!(identity_from_text(&s), Some(id));
    assert_eq!(identity_from_text("0001020F10ABCDEFFF090A0B0C0D0E0F"), Some(id));
    assert_eq!(identity_from_text("0001020f10abcdefff090a0b0c0d0e"), None);
    assert_eq!(identity_from_text("0001020f10abcdefff090a0b0c0d0e0g"), None);
    assert_eq!(into_identity(&s), Ok(id));
    assert_eq!(
        into_identity(&"nope".to_string()),
        Err(ApiError::InvalidIdentity { text: "nope".to_string() })
    );
}

#[test]
fn kind_is_text_message() {
    assert_eq!(TextMessage::kind(), "text_message");
}

#[test]
fn from_message_writes_the_document() {
    let m = message(Recipient::User(ident(3)));
    let ro = TextMessage::from_message(m.clone());
    let id = from_identity(&m.id);
    assert_eq!(ro.kind, "text_message");
    assert_eq!(ro.id, Some(id.clone()));
    assert_eq!(
        ro.attributes,
        Some(TextMessage { sign: Some(Trust::Unverified), payload: "hello qaul".to_string() })
    );
    let links = ro.links.as_ref().unwrap();
    assert_eq!(links.get("self"), Some(&Link::Url(format!("/api/text_messages/{}", id))));
    let rels = ro.relationships.as_ref().unwrap();
    assert_eq!(
        rels.get("sender").unwrap().data,
        OptionalVec::One(Some(user(&from_identity(&ident(2)))))
    );
    assert_eq!(
        rels.get("recipient").unwrap().data,
        OptionalVec::One(Some(user(&from_identity(&ident(3)))))
    );
}

#[test]
fn message_document_reads_back() {
    for recipient in vec![
        Recipient::User(ident(3)),
        Recipient::Group(vec![ident(4), ident(5), ident(6)]),
        Recipient::Group(vec![]),
        Recipient::Flood,
    ] {
        let m = message(recipient);
        let ro = TextMessage::from_message(m.clone());
        let p = "/data".to_string();
        assert_eq!(TextMessage::message_id(&ro, p.clone()), Ok(m.id));
        assert_eq!(TextMessage::sender(&ro, p.clone()), Ok(m.sender));
        assert_eq!(TextMessage::recipient(&ro, p.clone()), Ok(m.recipient.clone()));
        assert_eq!(TextMessage::sign(&ro, p.clone()), Ok(m.sign));
        assert_eq!(TextMessage::payload(&ro, p), Ok(m.payload.clone()));
    }
}

#[test]
fn missing_parts_are_reported_with_their_place() {
    let ro: ResourceObject<TextMessage> = ResourceObject {
        kind: "text_message".to_string(),
        id: None,
        attributes: None,
        links: None,
        relationships: None,
    };
    let p = "/data".to_string();
    assert_eq!(
        TextMessage::message_id(&ro, p.clone()),
        Err(ApiError::Document(DocumentError::NoId { pointer: Some("/data/id".to_string()) }))
    );
    let no_rels = Err(ApiError::Document(DocumentError::NoRelationships {
        pointer: Some("/data".to_string()),
    }));
    assert_eq!(TextMessage::sender(&ro, p.clone()), no_rels);
    assert_eq!(TextMessage::recipient(&ro, p.clone()).map(|_| ()), no_rels.map(|_: Identity| ()));
    let no_attrs = Err(ApiError::Document(DocumentError::NoAttributes {
        pointer: Some("/data".to_string()),
    }));
    assert_eq!(TextMessage::sign(&ro, p.clone()), no_attrs);
    assert_eq!(TextMessage::payload(&ro, p).map(|_| ()), no_attrs.map(|_: Trust| ()));
}

#[test]
fn unsigned_message_has_no_sign() {
    let ro = ResourceObject::new(
        "text_message".to_string(),
        "x".to_string(),
        Some(TextMessage { sign: None, payload: "hi".to_string() }),
    );
    assert_eq!(
        TextMessage::sign(&ro, "/p".to_string()),
        Err(ApiError::Document(DocumentError::NoAttribute {
            attribute: "sign".to_string(),
            pointer: Some("/p".to_string()),
        }))
    );
    assert_eq!(
        TextMessage::payload(&ro, "/p".to_string()),
        Ok(TextPayload { text: "hi".to_string() })
    );
}

#[test]
fn sender_relationship_errors() {
    let p = "/d".to_string();
    let ro = doc_with("recipient", OptionalVec::One(None));
    assert_eq!(
        TextMessage::sender(&ro, p.clone()),
        Err(ApiError::Document(DocumentError::NoRelationship {
            relationship: "sender".to_string(),
            pointer: Some("/d".to_string()),
        }))
    );
    let ro = doc_with("sender", OptionalVec::One(None));
    assert_eq!(
        TextMessage::sender(&ro, p.clone()),
        Err(ApiError::Document(DocumentError::NullItem {
            pointer: Some("/d/relationships/sender".to_string()),
        }))
    );
    let ro = doc_with("sender", OptionalVec::Many(vec![]));
    assert_eq!(
        TextMessage::sender(&ro, p.clone()),
        Err(ApiError::Document(DocumentError::ManyItems {
            pointer: Some("/d/relationships/sender".to_string()),
        }))
    );
    let hex = from_identity(&ident(9));
    let ro = doc_with(
        "sender",
        OptionalVec::One(Some(Identifier::new(hex.clone(), "group".to_string()))),
    );
    assert_eq!(
        TextMessage::sender(&ro, p.clone()),
        Err(ApiError::Document(DocumentError::WrongKind {
            expected: "user".to_string(),
            found: "group".to_string(),
        }))
    );
    let ro = doc_with("sender", OptionalVec::One(Some(user("zz"))));
    assert_eq!(
        TextMessage::sender(&ro, p.clone()),
        Err(ApiError::InvalidIdentity { text: "zz".to_string() })
    );
    let ro = doc_with("sender", OptionalVec::One(Some(user(&hex))));
    assert_eq!(TextMessage::sender(&ro, p), Ok(ident(9)));
}

#[test]
fn recipient_relationship_errors() {
    let p = "/d".to_string();
    let ro = doc_with("sender", OptionalVec::One(None));
    assert_eq!(
        TextMessage::recipient(&ro, p.clone()),
        Err(ApiError::Document(DocumentError::NoRelationship {
            relationship: "recipient".to_string(),
            pointer: Some("/d".to_string()),
        }))
    );
    let good = from_identity(&ident(4));
    let ro = doc_with("recipient", OptionalVec::Many(vec![user(&good), user("bad1"), user("bad2")]));
    assert_eq!(
        TextMessage::recipient(&ro, p.clone()),
        Err(ApiError::InvalidIdentity { text: "bad1".to_string() })
    );
    let ro = doc_with("recipient", OptionalVec::One(None));
    assert_eq!(TextMessage::recipient(&ro, p), Ok(Recipient::Flood));
}

#[test]
fn str_map_insert_and_get() {
    let mut m: StrMap<u32> = StrMap::new();
    assert_eq!(m.get("a"), None);
    m.insert("a".to_string(), 1);
    m.insert("b".to_string(), 2);
    m.insert("a".to_string(), 3);
    assert_eq!(m.get("a"), Some(&3));
    assert_eq!(m.get("b"), Some(&2));
    assert_eq!(m.get("c"), None);
    assert_eq!(m.into_entries().len(), 2);
    let m = StrMap::from_entries(vec![("k".to_string(), 1), ("k".to_string(), 2)]);
    assert_eq!(m.get("k"), Some(&2));
}

#[test]
fn optional_vec_one_or() {
    assert_eq!(OptionalVec::One(Some(1)).one_or("e"), Ok(Some(1)));
    assert_eq!(OptionalVec::<u8>::One(None).one_or("e"), Ok(None));
    assert_eq!(OptionalVec::Many(vec![1, 2]).one_or("e"), Err("e"));
    assert_eq!(OptionalVec::<u8>::NotPresent.one_or("e"), Err("e"));
}

#[test]
fn identity_from_bytes_needs_exact_length() {
    assert_eq!(Identity::from_bytes(&[1u8; 15]), None);
    assert_eq!(Identity::from_bytes(&[1u8; 17]), None);
    let id = Identity::from_bytes(&[5u8; 16]).unwrap();
    assert_eq!(id.as_bytes(), &[5u8; 16][..]);
}

#[test]
fn identifier_kind_check() {
    assert_eq!(identifier_as_kind(&user("abc"), "user"), Ok("abc".to_string()));
    assert_eq!(
        identifier_as_kind(&user("abc"), "room"),
        Err(ObjectConversionError::WrongKind { expected: "room".to_string(), found: "user".to_string() })
    );
}

#[test]
fn recipient_without_linkage_is_missing() {
    let ro = doc_with("recipient", OptionalVec::NotPresent);
    assert_eq!(
        TextMessage::recipient(&ro, "/d".to_string()),
        Err(ApiError::Document(DocumentError::NoRelationship {
            relationship: "recipient".to_string(),
            pointer: Some("/d".to_string()),
        }))
    );
}
