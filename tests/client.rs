use cryptol_rust_client::facade::{decode_hash_value, hash_digest, HashValue};
use cryptol_rust_client::json::{parse_i64, Json};
use cryptol_rust_client::protocol::{
    decode_answer, decode_envelope, decode_error_payload, ClientError, RpcFailure,
};
use cryptol_rust_client::session::CryptolClient;

fn from_serde(v: &serde_json::Value) -> Json {
    match v {
        serde_json::Value::Null => Json::Null,
        serde_json::Value::Bool(b) => Json::Bool(*b),
        serde_json::Value::Number(n) => Json::Number(n.to_string()),
        serde_json::Value::String(s) => Json::Str(s.clone()),
        serde_json::Value::Array(items) => Json::Array(items.iter().map(from_serde).collect()),
        serde_json::Value::Object(fields) => Json::Object(
            fields.iter().map(|(k, v)| (k.clone(), from_serde(v))).collect(),
        ),
    }
}

fn parse(text: &str) -> Json {
    from_serde(&serde_json::from_str(text).expect("test JSON is well formed"))
}

fn text(s: &str) -> Json {
    Json::Str(s.to_string())
}

fn field<'a>(v: &'a Json, key: &str) -> &'a Json {
    match v {
        Json::Object(fields) => &fields.iter().find(|(k, _)| k == key).expect("field present").1,
        _ => panic!("not an object"),
    }
}

fn as_text(v: &Json) -> &str {
    match v {
        Json::Str(s) => s,
        _ => panic!("not a string"),
    }
}

const SHA384_ENVELOPE: &str = r#"{"answer":{"type":{},"type string":"[384]","value":{"data":"5d13bb39a64c4ee16e0e8d2e1c13ec4731ff1ac69652c072d0cdc355eb9e0ec41b08aef3dd6fe0541e9fa9e3dcc80f7b","encoding":"hex","expression":"bits","width":384}},"state":"fa57d2ec","stderr":"","stdout":""}"#;

const SHA384_DIGEST: &str = "5d13bb39a64c4ee16e0e8d2e1c13ec4731ff1ac69652c072d0cdc355eb9e0ec41b08aef3dd6fe0541e9fa9e3dcc80f7b";

const MODULE_ERROR_DATA: &str = r#"{"data":{"path":["client","//.cryptol","/usr/local/share/cryptol"],"source":"Floataboat","warnings":[]},"stderr":"","stdout":""}"#;

fn envelope(state: &str, answer: &str) -> Json {
    parse(&format!(
        r#"{{"answer":{answer},"state":"{state}","stderr":"","stdout":""}}"#
    ))
}

fn connected() -> CryptolClient {
    let (_, request) =
        CryptolClient::connect_request(Some("http://localhost:8080".to_string())).unwrap();
    assert_eq!(request.method, "load module");
    let reply = envelope("a4909ccf-3ef9-45cc-913b-57e58da75788", "[]");
    CryptolClient::connect(Ok(reply)).unwrap()
}

#[test]
fn test_connect() {
    let cryptol_client = CryptolClient::connect(Ok(envelope("a4909ccf", "[]")));
    assert!(cryptol_client.is_ok());
}

#[test]
fn test_load_module_success() {
    let mut cryptol_client = connected();
    let request = cryptol_client.load_module_request("SuiteB");
    assert_eq!(request.method, "load module");
    assert_eq!(
        as_text(field(&request.params, "state")),
        "a4909ccf-3ef9-45cc-913b-57e58da75788"
    );
    assert_eq!(as_text(field(&request.params, "module name")), "SuiteB");
    match cryptol_client.load_module("SuiteB", Ok(envelope("b1", "null"))) {
        Ok(_) => (),
        Err(_) => panic!("Loading module failed"),
    };
    assert_eq!(cryptol_client.token(), "b1");
    assert_eq!(cryptol_client.module(), "SuiteB");
}

#[test]
fn test_load_module_failure() {
    let mut cryptol_client = connected();
    let failure = RpcFailure::Server {
        code: 20500,
        message: "[error] Could not find module nosuchmodule".to_string(),
        data: parse(MODULE_ERROR_DATA),
    };
    let result = cryptol_client.load_module("nosuchmodule", Err(failure));
    assert!(result.is_err(), "nosuchmodule should not exist");
    match result {
        Err(ClientError::ModuleNotFoundError(e)) => {
            assert_eq!(e.code, 20500);
            assert_eq!(e.data.data.source, "Floataboat");
            assert_eq!(e.data.data.path.len(), 3);
        }
        _ => panic!("expected a module-not-found error"),
    }
    assert_eq!(cryptol_client.token(), "a4909ccf-3ef9-45cc-913b-57e58da75788");
    assert_eq!(cryptol_client.module(), "Cryptol");
}

#[test]
fn test_call_success() {
    let mut cryptol_client = connected();
    let function = "reverse";
    let arguments = vec![text("[1, 2, 3, 4]")];
    let request = cryptol_client.call_request(function, arguments);
    assert_eq!(request.method, "call");
    assert_eq!(as_text(field(&request.params, "function")), "reverse");
    match field(&request.params, "arguments") {
        Json::Array(items) => {
            assert_eq!(items.len(), 1);
            assert_eq!(as_text(&items[0]), "[1, 2, 3, 4]");
        }
        _ => panic!("arguments are an array"),
    }
    let reply = envelope(
        "c2",
        r#"{"type":{},"type string":"[4][3]","value":{"data":[1,2,3,4]}}"#,
    );
    let answer = match cryptol_client.call(Ok(reply)) {
        Ok(r) => r,
        Err(_) => panic!("An error occured while calling"),
    };
    assert_eq!(answer.type_string, "[4][3]");
    assert_eq!(cryptol_client.token(), "c2");
}

#[test]
fn test_call_failure() {
    let mut cryptol_client = connected();
    let function = "nonsense";
    let arguments = vec![text("[1, 2, 3, 4]")];
    let request = cryptol_client.call_request(function, arguments);
    assert_eq!(as_text(field(&request.params, "function")), "nonsense");
    let failure = RpcFailure::Transport("Unbound name nonsense".to_string());
    let result = cryptol_client.call(Err(failure));
    assert!(
        result.is_err(),
        "'nonsense' should not be a function in the Cryptol prelude"
    );
}

#[test]
fn failed_call_keeps_token() {
    let mut client = connected();
    let before = client.call_request("nonsense", vec![text("1")]);
    let failure = RpcFailure::Server {
        code: 20000,
        message: "Unbound name".to_string(),
        data: Json::Null,
    };
    match client.call(Err(failure)) {
        Err(ClientError::EvaluationError { message, payload }) => {
            assert_eq!(message, "Unbound name");
            assert!(payload.is_none());
        }
        _ => panic!("expected an evaluation error"),
    }
    assert_eq!(client.token(), "a4909ccf-3ef9-45cc-913b-57e58da75788");
    let after = client.call_request("reverse", vec![text("[1, 2]")]);
    assert_eq!(
        as_text(field(&after.params, "state")),
        as_text(field(&before.params, "state"))
    );
    let answer = client.call(Ok(envelope(
        "d3",
        r#"{"type":{},"type string":"[2]","value":[2,1]}"#,
    )));
    assert!(answer.is_ok());
    assert_eq!(client.token(), "d3");
}

#[test]
fn load_module_twice_is_idempotent() {
    let mut client = connected();
    client.load_module("A", Ok(envelope("t1", "null"))).unwrap();
    assert_eq!(client.module(), "A");
    let request = client.load_module_request("A");
    assert_eq!(as_text(field(&request.params, "module name")), "A");
    assert_eq!(as_text(field(&request.params, "state")), "t1");
    client.load_module("A", Ok(envelope("t2", "null"))).unwrap();
    assert_eq!(client.module(), "A");
    assert_eq!(client.token(), "t2");
}

#[test]
fn token_is_the_reply_state() {
    let mut client = connected();
    client.load_module("SuiteB", Ok(envelope("next-token", "null"))).unwrap();
    assert_eq!(client.token(), "next-token");
    assert!(matches!(client.last_answer(), Json::Null));
}

#[test]
fn empty_state_is_refused() {
    let mut client = connected();
    let result = client.load_module("SuiteB", Ok(envelope("", "null")));
    assert!(matches!(result, Err(ClientError::DecodeError(_))));
    assert_eq!(client.token(), "a4909ccf-3ef9-45cc-913b-57e58da75788");
    assert_eq!(client.module(), "Cryptol");
}

#[test]
fn round_trip_decode_of_sha384() {
    let mut client = connected();
    let answer = client.call(Ok(parse(SHA384_ENVELOPE))).unwrap();
    assert_eq!(as_text(field(&answer.value, "data")), SHA384_DIGEST);
    assert_eq!(answer.type_string, "[384]");
    assert_eq!(client.token(), "fa57d2ec");
    let digest = hash_digest(&answer).unwrap();
    assert_eq!(digest, format!("0x{SHA384_DIGEST}"));
    let value = decode_hash_value(&answer.value).unwrap();
    assert_eq!(value.width, 384);
    assert_eq!(value.encoding, "hex");
    assert_eq!(value.expression, "bits");
}

#[test]
fn missing_endpoint_is_a_connection_error() {
    let none = CryptolClient::connect_request(None);
    assert!(matches!(none, Err(ClientError::ConnectionError(_))));
    let empty = CryptolClient::connect_request(Some(String::new()));
    assert!(matches!(empty, Err(ClientError::ConnectionError(_))));
}

#[test]
fn connect_sends_null_state_for_the_prelude() {
    let (endpoint, request) =
        CryptolClient::connect_request(Some("http://localhost:8080".to_string())).unwrap();
    assert_eq!(endpoint, "http://localhost:8080");
    assert!(matches!(field(&request.params, "state"), Json::Null));
    assert_eq!(as_text(field(&request.params, "module name")), "Cryptol");
}

#[test]
fn connect_failure_is_a_connection_error() {
    let result = CryptolClient::connect(Err(RpcFailure::Transport("refused".to_string())));
    match result {
        Err(ClientError::ConnectionError(m)) => assert_eq!(m, "refused"),
        _ => panic!("expected a connection error"),
    }
    let bad = CryptolClient::connect(Ok(parse(r#"{"state":"x"}"#)));
    assert!(matches!(bad, Err(ClientError::ConnectionError(_))));
}

#[test]
fn array_answer_is_a_decode_error() {
    let mut client = connected();
    let result = client.call(Ok(envelope("e1", "[]")));
    assert!(matches!(result, Err(ClientError::DecodeError(_))));
    assert_eq!(client.token(), "a4909ccf-3ef9-45cc-913b-57e58da75788");
    let answer = decode_answer(&parse(r#"{"type":{},"type string":"[384]","value":[]}"#)).unwrap();
    assert!(matches!(hash_digest(&answer), Err(ClientError::DecodeError(_))));
    assert!(matches!(decode_hash_value(&Json::Array(vec![])), Err(ClientError::DecodeError(_))));
}

#[test]
fn transport_failure_on_load_is_an_rpc_error() {
    let mut client = connected();
    match client.load_module("nosuchmodule", Err(RpcFailure::Transport("boom".to_string()))) {
        Err(ClientError::RpcError(m)) => assert_eq!(m, "boom"),
        _ => panic!("expected an rpc error"),
    }
}

#[test]
fn unstructured_server_error_on_load_is_an_rpc_error() {
    let mut client = connected();
    let failure = RpcFailure::Server {
        code: 20500,
        message: "no such module".to_string(),
        data: parse("[]"),
    };
    match client.load_module("nosuchmodule", Err(failure)) {
        Err(ClientError::RpcError(m)) => assert_eq!(m, "no such module"),
        _ => panic!("expected an rpc error"),
    }
}

#[test]
fn structured_error_on_call_is_attached() {
    let mut client = connected();
    let failure = RpcFailure::Server {
        code: 20500,
        message: "type error".to_string(),
        data: parse(MODULE_ERROR_DATA),
    };
    match client.call(Err(failure)) {
        Err(ClientError::EvaluationError { payload: Some(p), .. }) => {
            assert_eq!(p.message, "type error");
            assert_eq!(p.data.data.path[0], "client");
        }
        _ => panic!("expected an evaluation error with its payload"),
    }
}

#[test]
fn error_payload_needs_every_field() {
    let partial = parse(r#"{"data":{"path":["a"],"source":"s"},"stderr":"","stdout":""}"#);
    assert!(decode_error_payload(1, &"m".to_string(), &partial).is_none());
    let bad_path = parse(r#"{"data":{"path":[1],"source":"s","warnings":[]},"stderr":"","stdout":""}"#);
    assert!(decode_error_payload(1, &"m".to_string(), &bad_path).is_none());
}

#[test]
fn envelope_answer_defaults_to_null() {
    let e = decode_envelope(&parse(r#"{"state":"s","stderr":"err","stdout":"out"}"#)).unwrap();
    assert!(matches!(e.answer, Json::Null));
    assert_eq!(e.stderr, "err");
    assert_eq!(e.stdout, "out");
    assert!(decode_envelope(&parse(r#"{"state":"s","stderr":"","stdout":1}"#)).is_err());
    assert!(decode_envelope(&parse("[]")).is_err());
}

#[test]
fn integers_are_read_from_number_text() {
    assert_eq!(parse_i64("384"), Some(384));
    assert_eq!(parse_i64("-12"), Some(-12));
    assert_eq!(parse_i64("0"), Some(0));
    assert_eq!(parse_i64("9223372036854775807"), Some(i64::MAX));
    assert_eq!(parse_i64("-9223372036854775808"), Some(i64::MIN));
    assert_eq!(parse_i64("9223372036854775808"), None);
    assert_eq!(parse_i64("1.5"), None);
    assert_eq!(parse_i64("-"), None);
    assert_eq!(parse_i64(""), None);
}

#[test]
fn hex_string_has_radix_marker() {
    let h = HashValue {
        data: "ab".to_string(),
        encoding: "hex".to_string(),
        expression: "bits".to_string(),
        width: 8,
    };
    assert_eq!(h.to_hex_string(), "0xab");
}

#[test]
fn duplicate_and_member_lookup() {
    let v = parse(r#"{"a":[1,"x",null,true],"b":{"c":"d"}}"#);
    let copy = v.duplicate();
    assert_eq!(copy.text_member("b"), None);
    assert_eq!(copy.member("b").unwrap().text_member("c"), Some("d".to_string()));
    assert!(copy.member("z").is_none());
    match copy.member("a").unwrap().items() {
        Some(items) => assert_eq!(items.len(), 4),
        None => panic!("an array"),
    }
    assert!(parse(r#"["p","q"]"#).strings() == Some(vec!["p".to_string(), "q".to_string()]));
}
