//! The JSON:API document model used by the web API: resource objects,
//! resource identifiers, relationships, links and document errors.
use vstd::prelude::*;
use crate::str_map::StrMap;

verus! {

/// A resource identifier: the kind of a resource and its id.
#[derive(Debug, Clone, PartialEq, Eq)]
pub struct Identifier {
    pub kind: String,
    pub id: String,
}

/// The abstract content of an [`Identifier`].
pub ghost struct IdentifierView {
    pub kind: Seq<char>,
    pub id: Seq<char>,
}

impl View for Identifier {
    type V = IdentifierView;

    open spec fn view(&self) -> IdentifierView {
        IdentifierView { kind: self.kind@, id: self.id@ }
    }
}

impl Identifier {
    /// An identifier of the resource `id` of kind `kind`.
    pub fn new(id: String, kind: String) -> (r: Identifier)
        ensures
            r@ == (IdentifierView { kind: kind@, id: id@ }),
    {
        Identifier { kind, id }
    }
}

/// Resource linkage of a relationship: absent, a single (possibly null)
/// item, or a list of items.
#[derive(Debug, Clone, PartialEq, Eq)]
pub enum OptionalVec<T> {
    NotPresent,
    One(Option<T>),
    Many(Vec<T>),
}

/// The abstract content of an [`OptionalVec`].
pub ghost enum OptionalVecView<T> {
    NotPresent,
    One(Option<T>),
    Many(Seq<T>),
}

impl<T: View> View for OptionalVec<T> {
    type V = OptionalVecView<T::V>;

    open spec fn view(&self) -> OptionalVecView<T::V> {
        match self {
            OptionalVec::NotPresent => OptionalVecView::NotPresent,
            OptionalVec::One(None) => OptionalVecView::One(None),
            OptionalVec::One(Some(t)) => OptionalVecView::One(Some(t@)),
            OptionalVec::Many(v) => OptionalVecView::Many(v@.map_values(|t: T| t@)),
        }
    }
}

impl<T> OptionalVec<T> {
    /// The single (possibly null) item, or `e` when the linkage is not a single item.
    pub fn one_or<E>(self, e: E) -> (r: Result<Option<T>, E>)
        ensures
            match self {
                OptionalVec::One(v) => r == Ok::<Option<T>, E>(v),
                _ => r == Err::<Option<T>, E>(e),
            },
    {
        match self {
            OptionalVec::One(v) => Ok(v),
            _ => Err(e),
        }
    }
}

/// A relationship of a resource object.
#[derive(Debug, Clone, PartialEq, Eq)]
pub struct Relationship {
    pub data: OptionalVec<Identifier>,
}

impl View for Relationship {
    type V = OptionalVecView<IdentifierView>;

    open spec fn view(&self) -> OptionalVecView<IdentifierView> {
        self.data@
    }
}

/// A link of a resource object.
#[derive(Debug, Clone, PartialEq, Eq)]
pub enum Link {
    Url(String),
}

impl View for Link {
    type V = Seq<char>;

    open spec fn view(&self) -> Seq<char> {
        match self {
            Link::Url(u) => u@,
        }
    }
}

/// The links of a resource object, by name.
pub type Links = StrMap<Link>;

/// The relationships of a resource object, by name.
pub type Relationships = StrMap<Relationship>;

/// The abstract content of a map of named values.
pub open spec fn map_view<V: View>(m: StrMap<V>) -> Map<Seq<char>, V::V> {
    m@.map_values(|v: V| v@)
}

/// A resource object carrying attributes of type `T`.
#[derive(Debug)]
pub struct ResourceObject<T> {
    pub kind: String,
    pub id: Option<String>,
    pub attributes: Option<T>,
    pub links: Option<Links>,
    pub relationships: Option<Relationships>,
}

/// The abstract content of a [`ResourceObject`].
pub ghost struct ResourceObjectView<A> {
    pub kind: Seq<char>,
    pub id: Option<Seq<char>>,
    pub attributes: Option<A>,
    pub links: Option<Map<Seq<char>, Seq<char>>>,
    pub relationships: Option<Map<Seq<char>, OptionalVecView<IdentifierView>>>,
}

impl<T: View> View for ResourceObject<T> {
    type V = ResourceObjectView<T::V>;

    open spec fn view(&self) -> ResourceObjectView<T::V> {
        ResourceObjectView {
            kind: self.kind@,
            id: match self.id {
                Some(s) => Some(s@),
                None => None,
            },
            attributes: match self.attributes {
                Some(a) => Some(a@),
                None => None,
            },
            links: match self.links {
                Some(l) => Some(map_view(l)),
                None => None,
            },
            relationships: match self.relationships {
                Some(r) => Some(map_view(r)),
                None => None,
            },
        }
    }
}

impl<T> ResourceObject<T> {
    /// A resource object of kind `kind` with the given id and attributes,
    /// and neither links nor relationships.
    pub fn new(kind: String, id: String, attributes: Option<T>) -> (r: ResourceObject<T>)
        ensures
            r.kind@ == kind@,
            r.id matches Some(s) && s@ == id@,
            r.attributes == attributes,
            r.links is None,
            r.relationships is None,
    {
        ResourceObject { kind, id: Some(id), attributes, links: None, relationships: None }
    }
}

/// Why a resource identifier could not be taken as a resource of a kind.
#[derive(Debug, Clone, PartialEq, Eq)]
pub enum ObjectConversionError {
    WrongKind { expected: String, found: String },
}

/// Errors in reading a JSON:API document; each names the place in the
/// document (a JSON pointer) where it arose.
#[derive(Debug, Clone, PartialEq, Eq)]
pub enum DocumentError {
    NoId { pointer: Option<String> },
    NoAttributes { pointer: Option<String> },
    NoAttribute { attribute: String, pointer: Option<String> },
    NoRelationships { pointer: Option<String> },
    NoRelationship { relationship: String, pointer: Option<String> },
    ManyItems { pointer: Option<String> },
    NullItem { pointer: Option<String> },
    WrongKind { expected: String, found: String },
}

/// The abstract content of a [`DocumentError`].
pub ghost enum DocumentErrorView {
    NoId { pointer: Option<Seq<char>> },
    NoAttributes { pointer: Option<Seq<char>> },
    NoAttribute { attribute: Seq<char>, pointer: Option<Seq<char>> },
    NoRelationships { pointer: Option<Seq<char>> },
    NoRelationship { relationship: Seq<char>, pointer: Option<Seq<char>> },
    ManyItems { pointer: Option<Seq<char>> },
    NullItem { pointer: Option<Seq<char>> },
    WrongKind { expected: Seq<char>, found: Seq<char> },
}

/// The abstract content of an optional string.
pub open spec fn opt_text(s: Option<String>) -> Option<Seq<char>> {
    match s {
        Some(s) => Some(s@),
        None => None,
    }
}

impl View for DocumentError {
    type V = DocumentErrorView;

    open spec fn view(&self) -> DocumentErrorView {
        match self {
            DocumentError::NoId { pointer } => DocumentErrorView::NoId { pointer: opt_text(*pointer) },
            DocumentError::NoAttributes { pointer } => DocumentErrorView::NoAttributes {
                pointer: opt_text(*pointer),
            },
            DocumentError::NoAttribute { attribute, pointer } => DocumentErrorView::NoAttribute {
                attribute: attribute@,
                pointer: opt_text(*pointer),
            },
            DocumentError::NoRelationships { pointer } => DocumentErrorView::NoRelationships {
                pointer: opt_text(*pointer),
            },
            DocumentError::NoRelationship { relationship, pointer } =>
                DocumentErrorView::NoRelationship {
                    relationship: relationship@,
                    pointer: opt_text(*pointer),
                },
            DocumentError::ManyItems { pointer } => DocumentErrorView::ManyItems {
                pointer: opt_text(*pointer),
            },
            DocumentError::NullItem { pointer } => DocumentErrorView::NullItem {
                pointer: opt_text(*pointer),
            },
            DocumentError::WrongKind { expected, found } => DocumentErrorView::WrongKind {
                expected: expected@,
                found: found@,
            },
        }
    }
}

impl DocumentError {
    /// The document has no relationships at `pointer`.
    pub fn no_relationships(pointer: String) -> (e: DocumentError)
        ensures
            e@ == (DocumentErrorView::NoRelationships { pointer: Some(pointer@) }),
    {
        DocumentError::NoRelationships { pointer: Some(pointer) }
    }

    /// The relationship `relationship` is missing at `pointer`.
    pub fn no_relationship(relationship: String, pointer: String) -> (e: DocumentError)
        ensures
            e@ == (DocumentErrorView::NoRelationship {
                relationship: relationship@,
                pointer: Some(pointer@),
            }),
    {
        DocumentError::NoRelationship { relationship, pointer: Some(pointer) }
    }

    /// Several items stand where one was expected, at `pointer`.
    pub fn many_items(pointer: String) -> (e: DocumentError)
        ensures
            e@ == (DocumentErrorView::ManyItems { pointer: Some(pointer@) }),
    {
        DocumentError::ManyItems { pointer: Some(pointer) }
    }

    /// A null item stands where an item was expected, at `pointer`.
    pub fn null_item(pointer: String) -> (e: DocumentError)
        ensures
            e@ == (DocumentErrorView::NullItem { pointer: Some(pointer@) }),
    {
        DocumentError::NullItem { pointer: Some(pointer) }
    }

    /// The document has no attributes at `pointer`.
    pub fn no_attributes(pointer: String) -> (e: DocumentError)
        ensures
            e@ == (DocumentErrorView::NoAttributes { pointer: Some(pointer@) }),
    {
        DocumentError::NoAttributes { pointer: Some(pointer) }
    }

    /// The attribute `attribute` is missing at `pointer`.
    pub fn no_attribute(attribute: String, pointer: String) -> (e: DocumentError)
        ensures
            e@ == (DocumentErrorView::NoAttribute { attribute: attribute@, pointer: Some(pointer@) }),
    {
        DocumentError::NoAttribute { attribute, pointer: Some(pointer) }
    }

    /// The document error that a failed conversion of an identifier stands for.
    pub fn from_conversion(e: ObjectConversionError) -> (d: DocumentError)
        ensures
            match e {
                ObjectConversionError::WrongKind { expected, found } => d@
                    == (DocumentErrorView::WrongKind { expected: expected@, found: found@ }),
            },
    {
        match e {
            ObjectConversionError::WrongKind { expected, found } => DocumentError::WrongKind {
                expected,
                found,
            },
        }
    }
}

/// Takes a resource identifier as a resource of kind `kind`: its id, when the
/// identifier is of that kind.
pub fn identifier_as_kind(ident: &Identifier, kind: &str) -> (r: Result<String, ObjectConversionError>)
    ensures
        ident.kind@ == kind@ ==> (r matches Ok(id) && id@ == ident.id@),
        ident.kind@ != kind@ ==> (r matches Err(ObjectConversionError::WrongKind { expected, found })
            && expected@ == kind@ && found@ == ident.kind@),
{
    let expected = String::from_str(kind);
    if ident.kind == expected {
        Ok(ident.id.clone())
    } else {
        Err(ObjectConversionError::WrongKind { expected, found: ident.kind.clone() })
    }
}

} // verus!
