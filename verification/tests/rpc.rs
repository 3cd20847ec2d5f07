use qaul_models::identity::Identity;
use qaul_models::rpc::{Envelope, JsonAuth, RequestEnv, ResponseEnv, UserAuth};
use qaul_models::str_map::StrMap;
use serde_json::Value as JsonValue;

fn request(id: &str, auth: Option<JsonAuth>, method: &str, kind: &str) -> RequestEnv {
    let mut data = StrMap::new();
    data.insert("pw".to_string(), JsonValue::String("my-even-greater-password".into()));
    RequestEnv {
        id: id.to_string(),
        auth,
        page: None,
        method: method.to_string(),
        kind: kind.to_string(),
        data,
    }
}

#[test]
fn get_auth() {
    let ua = UserAuth(Identity { bytes: [7; 16] }, "my-token-is-great".into());
    let mut auth = serde_json::Map::new();
    auth.insert("token".to_string(), JsonValue::String(ua.1.clone()));
    let mut obj = serde_json::Map::new();
    obj.insert("auth".to_string(), JsonValue::Object(auth));
    let env = Envelope { id: "request-id".into(), data: JsonValue::Object(obj) };
    let request_env = request("request-id", None, "create", "users");
    let env_id = env.id.clone();
    let request_id = request_env.id.clone();

    let response = ResponseEnv::from((env, request_env)).unwrap();

    assert!(response.id == env_id && env_id == request_id);
    assert_eq!(response.method, "create");
    assert_eq!(response.kind, "users");
    assert_eq!(response.total, None);
    assert_eq!(response.next, None);
    assert!(response.data.get("auth").is_some());
}

#[test]
fn string_response_is_a_success_marker() {
    let auth = JsonAuth { id: Identity { bytes: [1; 16] }, token: "t".into() };
    let env = Envelope { id: "r1".into(), data: JsonValue::String("ok".into()) };
    let response = ResponseEnv::from((env, request("r1", Some(auth.clone()), "delete", "users")))
        .unwrap();
    assert_eq!(response.auth, Some(auth));
    assert_eq!(response.data.get("type"), Some(&JsonValue::String("success".into())));
    assert_eq!(response.data.into_entries().len(), 1);
}

#[test]
fn other_responses_have_no_envelope() {
    let env = Envelope { id: "r2".into(), data: JsonValue::Bool(true) };
    assert!(ResponseEnv::from((env, request("r2", None, "list", "users"))).is_none());
    let env = Envelope { id: "r3".into(), data: JsonValue::Null };
    assert!(ResponseEnv::from((env, request("r3", None, "list", "users"))).is_none());
}

#[test]
fn object_members_become_the_data() {
    let mut obj = serde_json::Map::new();
    obj.insert("b".to_string(), JsonValue::Bool(false));
    obj.insert("a".to_string(), JsonValue::String("x".into()));
    let env = Envelope { id: "r4".into(), data: JsonValue::Object(obj) };
    let response = ResponseEnv::from((env, request("r4", None, "query", "messages"))).unwrap();
    assert_eq!(response.data.get("a"), Some(&JsonValue::String("x".into())));
    assert_eq!(response.data.get("b"), Some(&JsonValue::Bool(false)));
    assert_eq!(response.data.get("type"), None);
}

#[test]
fn json_auth_into_user_auth() {
    let id = Identity { bytes: [3; 16] };
    let ua: UserAuth = JsonAuth { id, token: "secret".into() }.into();
    assert_eq!(ua, UserAuth(id, "secret".into()));
}

#[test]
fn response_id_is_the_request_id() {
    let env = Envelope { id: "answer-id".into(), data: JsonValue::String("ok".into()) };
    let response = ResponseEnv::from((env, request("request-id", None, "create", "users"))).unwrap();
    assert_eq!(response.id, "request-id");
}

#[test]
fn number_and_array_responses_have_no_envelope() {
    let env = Envelope { id: "r5".into(), data: JsonValue::from(42u64) };
    assert!(ResponseEnv::from((env, request("r5", None, "list", "users"))).is_none());
    let env = Envelope { id: "r6".into(), data: JsonValue::Array(vec![JsonValue::Null]) };
    assert!(ResponseEnv::from((env, request("r6", None, "list", "users"))).is_none());
}

#[test]
fn envelopes_clone() {
    let req = request("r7", None, "get", "users");
    let copy = req.clone();
    assert_eq!(copy.id, "r7");
    assert_eq!(copy.data.get("pw"), req.data.get("pw"));
}
