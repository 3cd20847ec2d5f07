//! JSON envelopes of RPC transactions: the request envelope that a web
//! client sends, and the response envelope built from a request and the
//! response to it.
use vstd::prelude::*;
use crate::identity::Identity;
use crate::str_map::{StrMap, entries_map};

verus! {

/// A JSON number, as the JSON library represents it.
#[verifier::external_type_specification]
#[verifier::external_body]
pub struct ExJsonNumber(serde_json::Number);

/// A JSON value, as the JSON library represents it.
#[verifier::external_type_specification]
#[verifier::external_body]
pub struct ExJsonValue(serde_json::Value);

/// `Clone` of a JSON value (`<serde_json::Value as Clone>::clone`), which the
/// envelopes' derived `Clone` calls; nothing is stated of the copy, as a JSON
/// value is opaque to the proofs.
pub assume_specification[ <serde_json::Value as Clone>::clone ](v: &serde_json::Value) -> serde_json::Value;

/// Named members of a JSON object.
pub type JsonMap = StrMap<serde_json::Value>;

/// The JSON string value holding the text `s`.
pub uninterp spec fn json_text(s: Seq<char>) -> serde_json::Value;

/// Builds the JSON string value `serde_json::Value::String(s)`; the result is
/// named by `json_text` of the text.
#[verifier::external_body]
fn json_string(s: String) -> (v: serde_json::Value)
    ensures
        v == json_text(s@),
{
    serde_json::Value::String(s)
}

/// The top-level form of a serialized response.
#[derive(Debug)]
pub enum JsonShape {
    /// An object, with its members in the order in which the JSON map holds them.
    Object(Vec<(String, serde_json::Value)>),
    /// A bare string.
    Text(String),
    /// `null`.
    Null,
    /// A boolean.
    Bool(bool),
    /// A number.
    Number(serde_json::Number),
    /// An array of values.
    Array(Vec<serde_json::Value>),
}

impl JsonShape {
    /// Whether a response of this shape can be carried in an envelope: an
    /// object or a string.
    pub open spec fn is_carried(self) -> bool {
        self is Object || self is Text
    }
}

/// The top-level form of the JSON value `v`.
pub uninterp spec fn shape_of(v: serde_json::Value) -> JsonShape;

/// Tells apart the variants of a `serde_json::Value`: an object hands out its
/// members (through `serde_json::Map::into_iter`, in the key order of the
/// map), a string its text, a boolean its value, a number itself, an array
/// its elements. The result depends on the value alone and is
/// named by `shape_of`; what the members are is not stated, as a JSON value
/// is opaque to the proofs.
#[verifier::external_body]
fn json_shape(v: serde_json::Value) -> (s: JsonShape)
    ensures
        s == shape_of(v),
{
    match v {
        serde_json::Value::Object(m) => JsonShape::Object(m.into_iter().collect()),
        serde_json::Value::String(t) => JsonShape::Text(t),
        serde_json::Value::Null => JsonShape::Null,
        serde_json::Value::Bool(b) => JsonShape::Bool(b),
        serde_json::Value::Number(n) => JsonShape::Number(n),
        serde_json::Value::Array(a) => JsonShape::Array(a),
    }
}

/// Authentication of a user: the user's identity and a session token.
#[derive(Debug, Clone, PartialEq, Eq)]
pub struct UserAuth(pub Identity, pub String);

/// Authentication data as JSON clients send it.
#[derive(Debug, Clone, PartialEq, Eq)]
pub struct JsonAuth {
    pub id: Identity,
    pub token: String,
}

impl From<JsonAuth> for UserAuth {
    fn from(ja: JsonAuth) -> (r: Self) {
        UserAuth(ja.id, ja.token)
    }
}

impl vstd::std_specs::convert::FromSpecImpl<JsonAuth> for UserAuth {
    open spec fn obeys_from_spec() -> bool {
        true
    }

    open spec fn from_spec(ja: JsonAuth) -> Self {
        UserAuth(ja.id, ja.token)
    }
}

/// A JSON request envelope.
#[derive(Debug, Clone)]
pub struct RequestEnv {
    /// The request ID
    pub id: String,
    /// Auth data for the request
    pub auth: Option<JsonAuth>,
    /// An optional page selector
    pub page: Option<String>,
    /// Operation method
    pub method: String,
    /// Request scope
    pub kind: String,
    /// The rest of the nested data
    pub data: JsonMap,
}

/// A JSON response envelope.
#[derive(Debug, Clone)]
pub struct ResponseEnv {
    /// Response ID, same as request ID
    pub id: String,
    /// Mirrored auth token
    pub auth: Option<JsonAuth>,
    /// Request method
    pub method: String,
    /// Request scope
    pub kind: String,
    /// Optional object count
    pub total: Option<usize>,
    /// Optional pagination info
    pub next: Option<String>,
    /// Response data
    pub data: JsonMap,
}

/// A response to a request, with the id of the request; the response is
/// held in its serialized (JSON) form.
#[derive(Debug, Clone)]
pub struct Envelope {
    pub id: String,
    pub data: serde_json::Value,
}

/// The members of the response data that a serialized response of shape
/// `shape` gives: an object's own members, or a bare marker of success for a string.
pub open spec fn response_data(shape: JsonShape) -> Map<Seq<char>, serde_json::Value> {
    match shape {
        JsonShape::Object(members) => entries_map(members@),
        _ => map!["type"@ => json_text("success"@)],
    }
}

/// The data of an envelope for an object response holds exactly the keys of
/// the object's members, each with the value of its (last) member, whatever
/// the number of members; a string response gives the single member "type"
/// with the value "success".
pub proof fn lemma_response_data_members(shape: JsonShape)
    ensures
        shape matches JsonShape::Object(ms) ==> (forall|k: Seq<char>|
            #[trigger] response_data(shape).contains_key(k) <==> exists|i: int|
                0 <= i < ms@.len() && (#[trigger] ms@[i]).0@ == k),
        shape matches JsonShape::Object(ms) ==> (forall|i: int|
            0 <= i < ms@.len() && (forall|j: int| i < j < ms@.len() ==> (#[trigger] ms@[j]).0@
                != ms@[i].0@) ==> response_data(shape)[(#[trigger] ms@[i]).0@] == ms@[i].1),
        shape is Text ==> response_data(shape).dom() == set!["type"@] && response_data(shape)["type"@]
            == json_text("success"@),
{
    if let JsonShape::Object(ms) = shape {
        let s = ms@;
        assert forall|k: Seq<char>| #[trigger] response_data(shape).contains_key(k) <==> exists|i: int|
            0 <= i < s.len() && (#[trigger] s[i]).0@ == k by {
            if exists|i: int| 0 <= i < s.len() && (#[trigger] s[i]).0@ == k {
                let i0 = choose|i: int| 0 <= i < s.len() && (#[trigger] s[i]).0@ == k;
                lemma_last_of_key(s, k, i0);
            } else {
                crate::str_map::lemma_entries_map_absent(s, k);
            }
        }
        assert forall|i: int|
            0 <= i < s.len() && (forall|j: int| i < j < s.len() ==> (#[trigger] s[j]).0@ != s[i].0@)
                implies response_data(shape)[(#[trigger] s[i]).0@] == s[i].1 by {
            crate::str_map::lemma_entries_map_last(s, s[i].0@, i);
        }
    }
}

/// A key that some entry carries is in the map.
proof fn lemma_last_of_key(s: Seq<(String, serde_json::Value)>, k: Seq<char>, i0: int)
    requires
        0 <= i0 < s.len(),
        s[i0].0@ == k,
    ensures
        entries_map(s).contains_key(k),
    decreases s.len() - i0,
{
    if exists|j: int| i0 < j < s.len() && (#[trigger] s[j]).0@ == k {
        let j = choose|j: int| i0 < j < s.len() && (#[trigger] s[j]).0@ == k;
        lemma_last_of_key(s, k, j);
    } else {
        crate::str_map::lemma_entries_map_last(s, k, i0);
    }
}

impl ResponseEnv {
    /// Builds the response envelope for the request `request`, answered with
    /// a response serialized to the shape `shape`: id, authentication, method
    /// and kind come from the request, and the data from the response.
    pub fn from_shape(shape: JsonShape, request: RequestEnv) -> (r: ResponseEnv)
        requires
            shape.is_carried(),
        ensures
            r.id == request.id,
            r.auth == request.auth,
            r.method == request.method,
            r.kind == request.kind,
            r.total is None,
            r.next is None,
            r.data@ == response_data(shape),
    {
        let RequestEnv { id, auth, method, kind, .. } = request;
        let data = match shape {
            JsonShape::Object(members) => StrMap::from_entries(members),
            JsonShape::Text(_) => {
                let mut m = StrMap::new();
                m.insert(String::from_str("type"), json_string(String::from_str("success")));
                m
            },
            _ => {
                proof {
                    assert(false);
                }
                StrMap::new()
            },
        };
        ResponseEnv { id, auth, method, kind, total: None, next: None, data }
    }

    /// Builds the response envelope for a request from the answer to it:
    /// id, authentication, method and kind come from the request (the
    /// response id is the request id), and the data from the serialized
    /// response. `None` where the
    /// serialized response is neither an object nor a string, which no
    /// response envelope can carry.
    pub fn from(env: (Envelope, RequestEnv)) -> (r: Option<ResponseEnv>)
        ensures
            r is None <==> !shape_of(env.0.data).is_carried(),
            r matches Some(resp) ==> {
                &&& resp.data@ == response_data(shape_of(env.0.data))
                &&& resp.id == env.1.id
                &&& resp.auth == env.1.auth
                &&& resp.method == env.1.method
                &&& resp.kind == env.1.kind
                &&& resp.total is None
                &&& resp.next is None
            },
    {
        let (envelope, request) = env;
        let shape = json_shape(envelope.data);
        match shape {
            JsonShape::Object(_) | JsonShape::Text(_) => Some(ResponseEnv::from_shape(shape, request)),
            _ => None,
        }
    }
}

} // verus!
