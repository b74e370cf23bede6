use inwx_txt::error::{ApiFailure, TransportFailure};
use inwx_txt::rpc::{interpret, success_code, Params, RpcCall, RpcResponse, Value};
use inwx_txt::session::{Client, DnsRecordSpec, RecordType, SessionState};

fn ok_response(payload: Option<Params>) -> Result<RpcResponse, TransportFailure> {
    Ok(RpcResponse { code: 1000, message: "Command completed successfully".to_string(), payload })
}

fn refused(code: i32, msg: &str) -> Result<RpcResponse, TransportFailure> {
    Ok(RpcResponse { code, message: msg.to_string(), payload: None })
}

fn id_payload(id: i32) -> Params {
    let mut p = Params::new();
    p.insert("id", Value::Int(id));
    p
}

fn text_of(call: &RpcCall, key: &str) -> String {
    match call.params.get(key) {
        Some(Value::Text(t)) => t.clone(),
        other => panic!("no text under {}: {:?}", key, other),
    }
}

fn acme_record() -> DnsRecordSpec {
    DnsRecordSpec {
        domain: "example.com".to_string(),
        typ: RecordType::TXT,
        name: "_acme-challenge".to_string(),
        content: "abc123".to_string(),
    }
}

fn logged_in_client() -> Client {
    let mut c = Client::new();
    assert!(c.finish_login(ok_response(None), Some("cookie".to_string())).is_ok());
    c
}

#[test]
fn params_insert_replaces_and_returns_previous() {
    let mut p = Params::new();
    assert!(p.insert("a", Value::Int(1)).is_none());
    assert!(p.insert("b", Value::Text("x".to_string())).is_none());
    match p.insert("a", Value::Int(2)) {
        Some(Value::Int(1)) => {}
        other => panic!("unexpected {:?}", other),
    }
    assert_eq!(p.entries.len(), 2);
    assert!(matches!(p.get("a"), Some(Value::Int(2))));
    assert!(p.get("c").is_none());
}

#[test]
fn success_codes() {
    assert!(success_code(1000));
    assert!(success_code(1500));
    assert!(!success_code(2200));
    assert!(!success_code(2303));
}

#[test]
fn refusal_keeps_code_and_message() {
    match interpret(refused(2303, "Object does not exist")) {
        Err(ApiFailure::CallError(code, msg)) => {
            assert_eq!(code, 2303);
            assert_eq!(msg, "Object does not exist");
        }
        other => panic!("unexpected {:?}", other),
    }
}

#[test]
fn network_failure_is_not_a_refusal() {
    for t in [TransportFailure::Network, TransportFailure::Decode, TransportFailure::Timeout] {
        match interpret(Err(t)) {
            Err(ApiFailure::Transport(got)) => assert_eq!(got, t),
            other => panic!("unexpected {:?}", other),
        }
    }
}

#[test]
fn new_client_is_logged_out() {
    let c = Client::new();
    assert_eq!(c.state(), SessionState::LoggedOut);
}

#[test]
fn login_call_carries_credentials() {
    let c = Client::new();
    let call = c.login_call("alice", "s3cret");
    assert_eq!(call.method, "account.login");
    assert_eq!(text_of(&call, "user"), "alice");
    assert_eq!(text_of(&call, "pass"), "s3cret");
}

#[test]
fn create_before_login_is_not_authenticated() {
    let c = Client::new();
    assert!(matches!(c.create_record_call(&acme_record()), Err(ApiFailure::NotAuthenticated)));
    assert!(matches!(c.delete_record_call(5), Err(ApiFailure::NotAuthenticated)));
}

#[test]
fn failed_login_stays_logged_out() {
    let mut c = Client::new();
    match c.finish_login(refused(2200, "invalid credentials"), None) {
        Err(ApiFailure::CallError(code, msg)) => {
            assert_eq!(code, 2200);
            assert_eq!(msg, "invalid credentials");
        }
        other => panic!("unexpected {:?}", other),
    }
    assert_eq!(c.state(), SessionState::LoggedOut);
    assert!(matches!(c.create_record_call(&acme_record()), Err(ApiFailure::NotAuthenticated)));
}

#[test]
fn login_without_token_is_not_a_session() {
    let mut c = Client::new();
    assert!(matches!(c.finish_login(ok_response(None), None), Err(ApiFailure::NotAuthenticated)));
    assert_eq!(c.state(), SessionState::LoggedOut);
}

#[test]
fn login_network_failure_stays_logged_out() {
    let mut c = Client::new();
    assert!(matches!(
        c.finish_login(Err(TransportFailure::Network), Some("cookie".to_string())),
        Err(ApiFailure::Transport(TransportFailure::Network))
    ));
    assert_eq!(c.state(), SessionState::LoggedOut);
}

#[test]
fn successful_login_is_logged_in() {
    let c = logged_in_client();
    assert_eq!(c.state(), SessionState::LoggedIn);
    assert_eq!(c.session_token().map(|t| t.as_str()), Some("cookie"));
}

#[test]
fn create_call_carries_record() {
    let c = logged_in_client();
    let call = c.create_record_call(&acme_record()).unwrap();
    assert_eq!(call.method, "nameserver.createRecord");
    assert_eq!(text_of(&call, "domain"), "example.com");
    assert_eq!(text_of(&call, "type"), "TXT");
    assert_eq!(text_of(&call, "name"), "_acme-challenge");
    assert_eq!(text_of(&call, "content"), "abc123");
}

#[test]
fn record_type_names() {
    assert_eq!(RecordType::TXT.name(), "TXT");
    assert_eq!(RecordType::AAAA.name(), "AAAA");
    assert_eq!(RecordType::CNAME.name(), "CNAME");
}

#[test]
fn create_returns_positive_id() {
    let c = logged_in_client();
    let id = c.finish_create_record(ok_response(Some(id_payload(4711)))).unwrap();
    assert_eq!(id, 4711);
    assert!(id > 0);
}

#[test]
fn create_without_id_is_decode_failure() {
    let c = logged_in_client();
    assert!(matches!(
        c.finish_create_record(ok_response(None)),
        Err(ApiFailure::Transport(TransportFailure::Decode))
    ));
    let mut p = Params::new();
    p.insert("id", Value::Text("12".to_string()));
    assert!(matches!(
        c.finish_create_record(ok_response(Some(p))),
        Err(ApiFailure::Transport(TransportFailure::Decode))
    ));
}

#[test]
fn create_network_failure() {
    let c = logged_in_client();
    assert!(matches!(
        c.finish_create_record(Err(TransportFailure::Network)),
        Err(ApiFailure::Transport(TransportFailure::Network))
    ));
}

#[test]
fn delete_missing_record_is_refused() {
    let c = logged_in_client();
    let call = c.delete_record_call(999999999).unwrap();
    assert_eq!(call.method, "nameserver.deleteRecord");
    assert!(matches!(call.params.get("id"), Some(Value::Int(999999999))));
    match c.finish_delete_record(refused(2303, "record not found")) {
        Err(ApiFailure::CallError(code, msg)) => {
            assert_eq!(code, 2303);
            assert_eq!(msg, "record not found");
        }
        other => panic!("unexpected {:?}", other),
    }
}

#[test]
fn create_then_delete_round_trip() {
    let mut c = logged_in_client();
    assert!(c.create_record_call(&acme_record()).is_ok());
    let id = c.finish_create_record(ok_response(Some(id_payload(31337)))).unwrap();
    let call = c.delete_record_call(id).unwrap();
    assert!(matches!(call.params.get("id"), Some(Value::Int(31337))));
    assert!(c.finish_delete_record(ok_response(None)).is_ok());
    assert_eq!(c.state(), SessionState::LoggedIn);
    let out = c.logout_call().unwrap();
    assert_eq!(out.method, "account.logout");
    assert!(c.finish_logout(ok_response(None)).is_ok());
    assert_eq!(c.state(), SessionState::LoggedOut);
}

#[test]
fn failed_logout_still_logs_out() {
    let mut c = logged_in_client();
    assert!(c.finish_logout(Err(TransportFailure::Network)).is_err());
    assert_eq!(c.state(), SessionState::LoggedOut);
    assert!(c.session_token().is_none());
    assert!(matches!(c.delete_record_call(1), Err(ApiFailure::NotAuthenticated)));
}

#[test]
fn logout_when_logged_out_is_harmless() {
    let mut c = Client::new();
    assert!(c.logout_call().is_none());
    c.drop_session();
    assert_eq!(c.state(), SessionState::LoggedOut);
    assert!(c.finish_logout(refused(2200, "no session")).is_err());
    assert_eq!(c.state(), SessionState::LoggedOut);
}

#[test]
fn call_error_kind_predicate() {
    assert!(ApiFailure::CallError(2400, "x".to_string()).is_call_error());
    assert!(!ApiFailure::Transport(TransportFailure::Network).is_call_error());
    assert!(!ApiFailure::NotAuthenticated.is_call_error());
}
