//! Text messages as JSON:API resource objects: writing a stored message as
//! a document, and reading each of its parts back out of a document.
use vstd::prelude::*;
use crate::document::{
    DocumentError, DocumentErrorView, Identifier, IdentifierView, Link, Links, OptionalVec,
    OptionalVecView, Relationship, Relationships, ResourceObject, ResourceObjectView, map_view,
    identifier_as_kind,
};
use crate::identity::{
    Identity, MsgId, from_identity, identity_from_text, identity_text, parse_identity,
};
use crate::str_map::StrMap;

verus! {

/// How far the signature of a message was verified.
#[derive(Clone, Copy, Debug, PartialEq, Eq)]
pub enum Trust {
    Trusted,
    Unverified,
    Invalid,
}

impl View for Trust {
    type V = Trust;

    open spec fn view(&self) -> Trust {
        *self
    }
}

/// The attributes of a text message resource.
#[derive(Debug, Clone, PartialEq, Eq)]
pub struct TextMessage {
    pub sign: Option<Trust>,
    pub payload: String,
}

/// The abstract content of a [`TextMessage`].
pub ghost struct TextMessageView {
    pub sign: Option<Trust>,
    pub payload: Seq<char>,
}

impl View for TextMessage {
    type V = TextMessageView;

    open spec fn view(&self) -> TextMessageView {
        TextMessageView { sign: self.sign, payload: self.payload@ }
    }
}

/// The body of a text message.
#[derive(Debug, Clone, PartialEq, Eq)]
pub struct TextPayload {
    pub text: String,
}

impl View for TextPayload {
    type V = Seq<char>;

    open spec fn view(&self) -> Seq<char> {
        self.text@
    }
}

/// Who a message is addressed to.
#[derive(Debug, Clone, PartialEq, Eq)]
pub enum Recipient {
    User(Identity),
    Group(Vec<Identity>),
    Flood,
}

/// The abstract content of a [`Recipient`].
pub ghost enum RecipientView {
    User(Seq<u8>),
    Group(Seq<Seq<u8>>),
    Flood,
}

impl View for Recipient {
    type V = RecipientView;

    open spec fn view(&self) -> RecipientView {
        match self {
            Recipient::User(id) => RecipientView::User(id@),
            Recipient::Group(ids) => RecipientView::Group(ids@.map_values(|i: Identity| i@)),
            Recipient::Flood => RecipientView::Flood,
        }
    }
}

/// A text message as the messaging service stores it.
#[derive(Debug, Clone, PartialEq, Eq)]
pub struct QaulMessage {
    pub id: MsgId,
    pub sender: Identity,
    pub recipient: Recipient,
    pub sign: Trust,
    pub payload: TextPayload,
}

/// The abstract content of a [`QaulMessage`].
pub ghost struct QaulMessageView {
    pub id: Seq<u8>,
    pub sender: Seq<u8>,
    pub recipient: RecipientView,
    pub sign: Trust,
    pub text: Seq<char>,
}

impl View for QaulMessage {
    type V = QaulMessageView;

    open spec fn view(&self) -> QaulMessageView {
        QaulMessageView {
            id: self.id@,
            sender: self.sender@,
            recipient: self.recipient@,
            sign: self.sign,
            text: self.payload.text@,
        }
    }
}

/// Errors of the web API.
#[derive(Debug, Clone, PartialEq, Eq)]
pub enum ApiError {
    Document(DocumentError),
    InvalidIdentity { text: String },
}

/// The abstract content of an [`ApiError`].
pub ghost enum ApiErrorView {
    Document(DocumentErrorView),
    InvalidIdentity(Seq<char>),
}

impl View for ApiError {
    type V = ApiErrorView;

    open spec fn view(&self) -> ApiErrorView {
        match self {
            ApiError::Document(d) => ApiErrorView::Document(d@),
            ApiError::InvalidIdentity { text } => ApiErrorView::InvalidIdentity(text@),
        }
    }
}

/// The abstract content of a result of the web API.
pub open spec fn result_view<T: View>(r: Result<T, ApiError>) -> Result<T::V, ApiErrorView> {
    match r {
        Ok(t) => Ok(t@),
        Err(e) => Err(e@),
    }
}

/// The identity that a text denotes, or the error that reading it gives.
pub open spec fn text_identity(s: Seq<char>) -> Result<Seq<u8>, ApiErrorView> {
    match parse_identity(s) {
        Some(b) => Ok(b),
        None => Err(ApiErrorView::InvalidIdentity(s)),
    }
}

/// Reads an identity from its textual form.
pub fn into_identity(s: &String) -> (r: Result<Identity, ApiError>)
    ensures
        result_view(r) == text_identity(s@),
{
    match identity_from_text(s.as_str()) {
        Some(id) => Ok(id),
        None => Err(ApiError::InvalidIdentity { text: s.clone() }),
    }
}

/// The identifier that refers to the user `id`.
pub open spec fn user_ref(id: Seq<u8>) -> IdentifierView {
    IdentifierView { kind: "user"@, id: identity_text(id) }
}

/// The resource linkage that names the recipient of a message.
pub open spec fn recipient_linkage(r: RecipientView) -> OptionalVecView<IdentifierView> {
    match r {
        RecipientView::User(id) => OptionalVecView::One(Some(user_ref(id))),
        RecipientView::Group(ids) => OptionalVecView::Many(ids.map_values(|i: Seq<u8>| user_ref(i))),
        RecipientView::Flood => OptionalVecView::One(None),
    }
}

/// The resource object that describes a stored message.
pub open spec fn message_document(m: QaulMessageView) -> ResourceObjectView<TextMessageView> {
    ResourceObjectView {
        kind: "text_message"@,
        id: Some(identity_text(m.id)),
        attributes: Some(TextMessageView { sign: Some(m.sign), payload: m.text }),
        links: Some(map!["self"@ => "/api/text_messages/"@ + identity_text(m.id)]),
        relationships: Some(
            map![
                "sender"@ => OptionalVecView::One(Some(user_ref(m.sender))),
                "recipient"@ => recipient_linkage(m.recipient),
            ],
        ),
    }
}


/// A document error as an error of the web API.
pub open spec fn doc_err(d: DocumentErrorView) -> ApiErrorView {
    ApiErrorView::Document(d)
}

/// Where the sender relationship of a document at `p` sits.
pub open spec fn sender_pointer(p: Seq<char>) -> Seq<char> {
    p + "/relationships/sender"@
}

/// The id of the message that a document at `p` describes.
pub open spec fn document_message_id(
    ro: ResourceObjectView<TextMessageView>,
    p: Seq<char>,
) -> Result<Seq<u8>, ApiErrorView> {
    match ro.id {
        None => Err(doc_err(DocumentErrorView::NoId { pointer: Some(p + "/id"@) })),
        Some(id) => text_identity(id),
    }
}

/// The user that an identifier refers to.
pub open spec fn user_identity(iv: IdentifierView) -> Result<Seq<u8>, ApiErrorView> {
    if iv.kind == "user"@ {
        text_identity(iv.id)
    } else {
        Err(doc_err(DocumentErrorView::WrongKind { expected: "user"@, found: iv.kind }))
    }
}

/// The users that a list of identifiers refers to; the first identifier
/// that refers to none gives the error.
pub open spec fn user_identities(s: Seq<IdentifierView>) -> Result<Seq<Seq<u8>>, ApiErrorView>
    decreases s.len(),
{
    if s.len() == 0 {
        Ok(Seq::empty())
    } else {
        match user_identities(s.drop_last()) {
            Err(e) => Err(e),
            Ok(v) => match user_identity(s.last()) {
                Ok(b) => Ok(v.push(b)),
                Err(e) => Err(e),
            },
        }
    }
}

/// The sender of the message that a document at `p` describes.
pub open spec fn document_sender(
    ro: ResourceObjectView<TextMessageView>,
    p: Seq<char>,
) -> Result<Seq<u8>, ApiErrorView> {
    match ro.relationships {
        None => Err(doc_err(DocumentErrorView::NoRelationships { pointer: Some(p) })),
        Some(rels) => if !rels.contains_key("sender"@) {
            Err(
                doc_err(
                    DocumentErrorView::NoRelationship {
                        relationship: "sender"@,
                        pointer: Some(p),
                    },
                ),
            )
        } else {
            match rels["sender"@] {
                OptionalVecView::One(Some(iv)) => user_identity(iv),
                OptionalVecView::One(None) => Err(
                    doc_err(DocumentErrorView::NullItem { pointer: Some(sender_pointer(p)) }),
                ),
                _ => Err(doc_err(DocumentErrorView::ManyItems { pointer: Some(sender_pointer(p)) })),
            }
        },
    }
}

/// The recipient of the message that a document at `p` describes.
pub open spec fn document_recipient(
    ro: ResourceObjectView<TextMessageView>,
    p: Seq<char>,
) -> Result<RecipientView, ApiErrorView> {
    match ro.relationships {
        None => Err(doc_err(DocumentErrorView::NoRelationships { pointer: Some(p) })),
        Some(rels) => if !rels.contains_key("recipient"@) {
            Err(
                doc_err(
                    DocumentErrorView::NoRelationship {
                        relationship: "recipient"@,
                        pointer: Some(p),
                    },
                ),
            )
        } else {
            match rels["recipient"@] {
                OptionalVecView::One(None) => Ok(RecipientView::Flood),
                OptionalVecView::One(Some(iv)) => match user_identity(iv) {
                    Ok(b) => Ok(RecipientView::User(b)),
                    Err(e) => Err(e),
                },
                OptionalVecView::Many(ivs) => match user_identities(ivs) {
                    Ok(bs) => Ok(RecipientView::Group(bs)),
                    Err(e) => Err(e),
                },
                OptionalVecView::NotPresent => Err(
                    doc_err(
                        DocumentErrorView::NoRelationship {
                            relationship: "recipient"@,
                            pointer: Some(p),
                        },
                    ),
                ),
            }
        },
    }
}

/// The signature trust of the message that a document at `p` describes.
pub open spec fn document_sign(
    ro: ResourceObjectView<TextMessageView>,
    p: Seq<char>,
) -> Result<Trust, ApiErrorView> {
    match ro.attributes {
        None => Err(doc_err(DocumentErrorView::NoAttributes { pointer: Some(p) })),
        Some(a) => match a.sign {
            None => Err(
                doc_err(DocumentErrorView::NoAttribute { attribute: "sign"@, pointer: Some(p) }),
            ),
            Some(t) => Ok(t),
        },
    }
}

/// The text of the message that a document at `p` describes.
pub open spec fn document_payload(
    ro: ResourceObjectView<TextMessageView>,
    p: Seq<char>,
) -> Result<Seq<char>, ApiErrorView> {
    match ro.attributes {
        None => Err(doc_err(DocumentErrorView::NoAttributes { pointer: Some(p) })),
        Some(a) => Ok(a.payload),
    }
}

/// Once a prefix of a list of identifiers fails, the whole list fails the same way.
proof fn lemma_user_identities_err_prefix(s: Seq<IdentifierView>, k: int)
    requires
        0 <= k <= s.len(),
        user_identities(s.take(k)) is Err,
    ensures
        user_identities(s) == user_identities(s.take(k)),
    decreases s.len(),
{
    if s.len() == k {
        assert(s.take(k) =~= s);
    } else {
        assert(s.drop_last().take(k) =~= s.take(k));
        lemma_user_identities_err_prefix(s.drop_last(), k);
    }
}

fn user_from_identifier(ident: &Identifier) -> (r: Result<Identity, ApiError>)
    ensures
        result_view(r) == user_identity(ident@),
{
    match identifier_as_kind(ident, "user") {
        Ok(id) => into_identity(&id),
        Err(e) => Err(ApiError::Document(DocumentError::from_conversion(e))),
    }
}

fn users_from_identifiers(idents: &Vec<Identifier>) -> (r: Result<Vec<Identity>, ApiError>)
    ensures
        match r {
            Ok(v) => user_identities(idents@.map_values(|i: Identifier| i@)) == Ok::<
                Seq<Seq<u8>>,
                ApiErrorView,
            >(v@.map_values(|i: Identity| i@)),
            Err(e) => user_identities(idents@.map_values(|i: Identifier| i@)) == Err::<
                Seq<Seq<u8>>,
                ApiErrorView,
            >(e@),
        },
{
    let ghost ivs = idents@.map_values(|i: Identifier| i@);
    let mut out: Vec<Identity> = Vec::new();
    let mut i: usize = 0;
    assert(ivs.take(0) =~= Seq::<IdentifierView>::empty());
    assert(out@.map_values(|i: Identity| i@) =~= Seq::<Seq<u8>>::empty());
    while i < idents.len()
        invariant
            i <= idents@.len(),
            ivs == idents@.map_values(|i: Identifier| i@),
            user_identities(ivs.take(i as int)) == Ok::<Seq<Seq<u8>>, ApiErrorView>(
                out@.map_values(|i: Identity| i@),
            ),
        decreases idents@.len() - i,
    {
        assert(ivs.take(i as int + 1).drop_last() =~= ivs.take(i as int));
        assert(ivs.take(i as int + 1).last() == idents@[i as int]@);
        match user_from_identifier(&idents[i]) {
            Ok(id) => {
                let ghost before = out@;
                out.push(id);
                assert(out@.map_values(|i: Identity| i@) =~= before.map_values(|i: Identity| i@).push(id@));
            },
            Err(e) => {
                proof {
                    lemma_user_identities_err_prefix(ivs, i as int + 1);
                }
                return Err(e);
            },
        }
        i = i + 1;
    }
    assert(ivs.take(i as int) =~= ivs);
    Ok(out)
}

/// Identifiers written for a list of users read back as those users.
proof fn lemma_user_identities_of_refs(s: Seq<Seq<u8>>)
    requires
        forall|i: int| 0 <= i < s.len() ==> (#[trigger] s[i]).len() == crate::identity::ID_LEN,
    ensures
        user_identities(s.map_values(|i: Seq<u8>| user_ref(i))) == Ok::<Seq<Seq<u8>>, ApiErrorView>(s),
    decreases s.len(),
{
    let refs = s.map_values(|i: Seq<u8>| user_ref(i));
    if s.len() > 0 {
        assert(refs.drop_last() =~= s.drop_last().map_values(|i: Seq<u8>| user_ref(i)));
        lemma_user_identities_of_refs(s.drop_last());
        crate::identity::lemma_identity_text_roundtrip(s.last());
        assert(refs.last() == user_ref(s.last()));
        assert(user_identity(refs.last()) == Ok::<Seq<u8>, ApiErrorView>(s.last()));
        assert(s.drop_last().push(s.last()) =~= s);
    } else {
        assert(s =~= Seq::<Seq<u8>>::empty());
        assert(refs =~= Seq::<IdentifierView>::empty());
    }
}

/// Reading each part of a message back out of the document that
/// `TextMessage::from_message` writes for it gives that part of the message:
/// its id, sender, recipient, signature trust and text, wherever the
/// document is found.
pub proof fn lemma_document_roundtrip(m: QaulMessage, p: Seq<char>)
    ensures
        document_message_id(message_document(m@), p) == Ok::<Seq<u8>, ApiErrorView>(m.id@),
        document_sender(message_document(m@), p) == Ok::<Seq<u8>, ApiErrorView>(m.sender@),
        document_recipient(message_document(m@), p) == Ok::<RecipientView, ApiErrorView>(
            m.recipient@,
        ),
        document_sign(message_document(m@), p) == Ok::<Trust, ApiErrorView>(m.sign),
        document_payload(message_document(m@), p) == Ok::<Seq<char>, ApiErrorView>(
            m.payload.text@,
        ),
{
    reveal_strlit("sender");
    reveal_strlit("recipient");
    assert("sender"@.len() == 6);
    assert("recipient"@.len() == 9);
    crate::identity::lemma_identity_text_roundtrip(m.id@);
    crate::identity::lemma_identity_text_roundtrip(m.sender@);
    match m.recipient {
        Recipient::User(id) => {
            crate::identity::lemma_identity_text_roundtrip(id@);
        },
        Recipient::Group(ids) => {
            let s = ids@.map_values(|i: Identity| i@);
            lemma_user_identities_of_refs(s);
        },
        Recipient::Flood => {},
    }
}

/// The self link of a message document is `/api/text_messages/` followed by
/// the document's id text, and that id is the message's own, whoever the
/// message is addressed to.
pub proof fn lemma_document_self_link(m: QaulMessage)
    ensures
        message_document(m@).links matches Some(l) && l.contains_key("self"@) && l["self"@]
            == "/api/text_messages/"@ + message_document(m@).id->0,
        message_document(m@).id == Some(identity_text(m.id@)),
{
}

/// The linkage of the relationship `name` of a document, if it has one.
pub open spec fn relationship_data(
    ro: ResourceObjectView<TextMessageView>,
    name: Seq<char>,
) -> Option<OptionalVecView<IdentifierView>> {
    match ro.relationships {
        Some(rels) => if rels.contains_key(name) {
            Some(rels[name])
        } else {
            None
        },
        None => None,
    }
}

/// The sender is read only from a single identifier of kind "user", as the
/// identity its id text names: a list of identifiers, of any length, fails
/// with `ManyItems` at `<pointer>/relationships/sender`, an identifier of
/// another kind fails with `WrongKind`, and anything else fails.
pub proof fn lemma_sender_needs_one_user(ro: ResourceObjectView<TextMessageView>, p: Seq<char>)
    ensures
        match relationship_data(ro, "sender"@) {
            Some(OptionalVecView::One(Some(iv))) => if iv.kind == "user"@ {
                match parse_identity(iv.id) {
                    Some(b) => document_sender(ro, p) == Ok::<Seq<u8>, ApiErrorView>(b),
                    None => document_sender(ro, p) is Err,
                }
            } else {
                document_sender(ro, p) == Err::<Seq<u8>, ApiErrorView>(
                    ApiErrorView::Document(
                        DocumentErrorView::WrongKind { expected: "user"@, found: iv.kind },
                    ),
                )
            },
            Some(OptionalVecView::Many(_)) => document_sender(ro, p) == Err::<Seq<u8>, ApiErrorView>(
                ApiErrorView::Document(
                    DocumentErrorView::ManyItems { pointer: Some(p + "/relationships/sender"@) },
                ),
            ),
            _ => document_sender(ro, p) is Err,
        },
{
}

/// Every identifier of a list that reads as users is of kind "user", and the
/// users are those the identifiers name, in order.
proof fn lemma_user_identities_kinds(s: Seq<IdentifierView>)
    requires
        user_identities(s) is Ok,
    ensures
        user_identities(s)->Ok_0.len() == s.len(),
        forall|i: int|
            0 <= i < s.len() ==> (#[trigger] s[i]).kind == "user"@ && parse_identity(s[i].id)
                == Some(user_identities(s)->Ok_0[i]),
    decreases s.len(),
{
    if s.len() > 0 {
        lemma_user_identities_kinds(s.drop_last());
        assert forall|i: int| 0 <= i < s.len() implies (#[trigger] s[i]).kind == "user"@
            && parse_identity(s[i].id) == Some(user_identities(s)->Ok_0[i]) by {
            if i < s.len() - 1 {
                assert(s[i] == s.drop_last()[i]);
            }
        }
    }
}

/// A recipient is a user only when named by a single identifier of kind
/// "user" (another kind fails with `WrongKind`), a group only when every
/// identifier of the list is of kind "user" and names, in order, the group's
/// members, and flood only for a null linkage; a document without recipient
/// linkage fails.
pub proof fn lemma_recipient_needs_users(ro: ResourceObjectView<TextMessageView>, p: Seq<char>)
    ensures
        match relationship_data(ro, "recipient"@) {
            Some(OptionalVecView::One(Some(iv))) => if iv.kind == "user"@ {
                match parse_identity(iv.id) {
                    Some(b) => document_recipient(ro, p) == Ok::<RecipientView, ApiErrorView>(
                        RecipientView::User(b),
                    ),
                    None => document_recipient(ro, p) is Err,
                }
            } else {
                document_recipient(ro, p) == Err::<RecipientView, ApiErrorView>(
                    ApiErrorView::Document(
                        DocumentErrorView::WrongKind { expected: "user"@, found: iv.kind },
                    ),
                )
            },
            Some(OptionalVecView::One(None)) => document_recipient(ro, p) == Ok::<
                RecipientView,
                ApiErrorView,
            >(RecipientView::Flood),
            Some(OptionalVecView::Many(ivs)) => match document_recipient(ro, p) {
                Ok(RecipientView::Group(bs)) => bs.len() == ivs.len() && forall|i: int|
                    0 <= i < ivs.len() ==> (#[trigger] ivs[i]).kind == "user"@ && parse_identity(
                        ivs[i].id,
                    ) == Some(bs[i]),
                Ok(_) => false,
                Err(_) => true,
            },
            _ => document_recipient(ro, p) is Err,
        },
{
    if let Some(OptionalVecView::Many(ivs)) = relationship_data(ro, "recipient"@) {
        if user_identities(ivs) is Ok {
            lemma_user_identities_kinds(ivs);
        }
    }
}

fn user_identifier(id: &Identity) -> (r: Identifier)
    ensures
        r@ == user_ref(id@),
{
    Identifier::new(from_identity(id), String::from_str("user"))
}

fn recipient_data(r: &Recipient) -> (d: OptionalVec<Identifier>)
    ensures
        d@ == recipient_linkage(r@),
{
    match r {
        Recipient::User(id) => OptionalVec::One(Some(user_identifier(id))),
        Recipient::Group(ids) => {
            let mut out: Vec<Identifier> = Vec::new();
            let mut i: usize = 0;
            while i < ids.len()
                invariant
                    i <= ids@.len(),
                    out@.len() == i,
                    forall|k: int| 0 <= k < i ==> (#[trigger] out@[k])@ == user_ref(ids@[k]@),
                decreases ids@.len() - i,
            {
                out.push(user_identifier(&ids[i]));
                i = i + 1;
            }
            let d = OptionalVec::Many(out);
            assert(d@ == recipient_linkage(r@)) by {
                if let OptionalVecView::Many(s) = d@ {
                    assert(s =~= ids@.map_values(|i: Identity| i@).map_values(
                        |i: Seq<u8>| user_ref(i),
                    ));
                }
            }
            d
        },
        Recipient::Flood => OptionalVec::One(None),
    }
}

impl TextMessage {
    /// The resource kind of text messages.
    pub fn kind() -> (k: String)
        ensures
            k@ == "text_message"@,
    {
        String::from_str("text_message")
    }

    /// Describes a stored message as a resource object: its attributes, a
    /// link to itself, and its sender and recipient as relationships.
    pub fn from_message(m: QaulMessage) -> (ro: ResourceObject<TextMessage>)
        ensures
            ro@ == message_document(m@),
    {
        let attr = TextMessage { sign: Some(m.sign), payload: m.payload.text };
        let id = from_identity(&m.id);
        let url = String::from_str("/api/text_messages/").concat(id.as_str());
        let mut ro = ResourceObject::new(TextMessage::kind(), id, Some(attr));

        let mut links: Links = StrMap::new();
        links.insert(String::from_str("self"), Link::Url(url));
        ro.links = Some(links);

        let mut relationships: Relationships = StrMap::new();
        relationships.insert(
            String::from_str("sender"),
            Relationship { data: OptionalVec::One(Some(user_identifier(&m.sender))) },
        );
        let recipient = recipient_data(&m.recipient);
        relationships.insert(String::from_str("recipient"), Relationship { data: recipient });
        ro.relationships = Some(relationships);

        proof {
            reveal_strlit("sender");
            reveal_strlit("recipient");
            assert("sender"@.len() == 6);
            assert("recipient"@.len() == 9);
            assert(map_view(ro.links->0) =~= map!["self"@ => "/api/text_messages/"@ + identity_text(m.id@)]);
            assert(map_view(ro.relationships->0) =~= map![
                "sender"@ => OptionalVecView::One(Some(user_ref(m.sender@))),
                "recipient"@ => recipient_linkage(m.recipient@),
            ]);
        }
        ro
    }

    /// The id of the message that the document `ro` (found at `pointer`) describes.
    pub fn message_id(ro: &ResourceObject<TextMessage>, pointer: String) -> (r: Result<MsgId, ApiError>)
        ensures
            result_view(r) == document_message_id(ro@, pointer@),
    {
        match &ro.id {
            None => Err(
                ApiError::Document(DocumentError::NoId { pointer: Some(pointer.concat("/id")) }),
            ),
            Some(id) => into_identity(id),
        }
    }

    /// The sender of the message that the document `ro` (found at `pointer`) describes.
    pub fn sender(ro: &ResourceObject<TextMessage>, pointer: String) -> (r: Result<Identity, ApiError>)
        ensures
            result_view(r) == document_sender(ro@, pointer@),
    {
        let rels = match &ro.relationships {
            None => {
                return Err(ApiError::Document(DocumentError::no_relationships(pointer)));
            },
            Some(rels) => rels,
        };
        let rel = match rels.get("sender") {
            None => {
                return Err(
                    ApiError::Document(
                        DocumentError::no_relationship(String::from_str("sender"), pointer),
                    ),
                );
            },
            Some(rel) => rel,
        };
        match &rel.data {
            OptionalVec::One(Some(ident)) => user_from_identifier(ident),
            OptionalVec::One(None) => Err(
                ApiError::Document(
                    DocumentError::null_item(pointer.concat("/relationships/sender")),
                ),
            ),
            _ => Err(
                ApiError::Document(
                    DocumentError::many_items(pointer.concat("/relationships/sender")),
                ),
            ),
        }
    }

    /// The recipient of the message that the document `ro` (found at `pointer`) describes.
    pub fn recipient(ro: &ResourceObject<TextMessage>, pointer: String) -> (r: Result<
        Recipient,
        ApiError,
    >)
        ensures
            result_view(r) == document_recipient(ro@, pointer@),
    {
        let rels = match &ro.relationships {
            None => {
                return Err(ApiError::Document(DocumentError::no_relationships(pointer)));
            },
            Some(rels) => rels,
        };
        let rel = match rels.get("recipient") {
            None => {
                return Err(
                    ApiError::Document(
                        DocumentError::no_relationship(String::from_str("recipient"), pointer),
                    ),
                );
            },
            Some(rel) => rel,
        };
        match &rel.data {
            OptionalVec::One(None) => Ok(Recipient::Flood),
            OptionalVec::One(Some(ident)) => match user_from_identifier(ident) {
                Ok(id) => Ok(Recipient::User(id)),
                Err(e) => Err(e),
            },
            OptionalVec::Many(idents) => match users_from_identifiers(idents) {
                Ok(ids) => Ok(Recipient::Group(ids)),
                Err(e) => Err(e),
            },
            // a relationship without linkage names no recipient
            OptionalVec::NotPresent => Err(
                ApiError::Document(
                    DocumentError::no_relationship(String::from_str("recipient"), pointer),
                ),
            ),
        }
    }

    /// How far the signature of the message that the document `ro` (found at
    /// `pointer`) describes was verified.
    pub fn sign(ro: &ResourceObject<TextMessage>, pointer: String) -> (r: Result<Trust, ApiError>)
        ensures
            result_view(r) == document_sign(ro@, pointer@),
    {
        match &ro.attributes {
            None => Err(ApiError::Document(DocumentError::no_attributes(pointer))),
            Some(a) => match a.sign {
                None => Err(
                    ApiError::Document(
                        DocumentError::no_attribute(String::from_str("sign"), pointer),
                    ),
                ),
                Some(t) => Ok(t),
            },
        }
    }

    /// The body of the message that the document `ro` (found at `pointer`) describes.
    pub fn payload(ro: &ResourceObject<TextMessage>, pointer: String) -> (r: Result<
        TextPayload,
        ApiError,
    >)
        ensures
            result_view(r) == document_payload(ro@, pointer@),
    {
        match &ro.attributes {
            None => Err(ApiError::Document(DocumentError::no_attributes(pointer))),
            Some(a) => Ok(TextPayload { text: a.payload.clone() }),
        }
    }
}

} // verus!
