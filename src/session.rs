use vstd::prelude::*;

use crate::error::{ApiFailure, TransportFailure};
use crate::rpc::{failure_of, holds_text, interpret, is_success_code, Params, RpcCall, RpcResponse, Value};

verus! {

/// Whether the client holds a live session.
#[derive(Debug, Clone, Copy, PartialEq, Eq, Structural)]
pub enum SessionState {
    LoggedOut,
    LoggedIn,
}

/// The kinds of DNS record the registrar manages.
#[derive(Debug, Clone, Copy, PartialEq, Eq, Structural)]
pub enum RecordType {
    A,
    AAAA,
    CNAME,
    MX,
    NS,
    TXT,
}

/// The name the wire format uses for a record type.
pub open spec fn wire_type(t: RecordType) -> Seq<char> {
    match t {
        RecordType::A => seq!['A'],
        RecordType::AAAA => seq!['A', 'A', 'A', 'A'],
        RecordType::CNAME => seq!['C', 'N', 'A', 'M', 'E'],
        RecordType::MX => seq!['M', 'X'],
        RecordType::NS => seq!['N', 'S'],
        RecordType::TXT => seq!['T', 'X', 'T'],
    }
}

impl RecordType {
    /// The record type's name on the wire.
    pub fn name(&self) -> (r: String)
        ensures
            r@ == wire_type(*self),
    {
        let s = match self {
            RecordType::A => "A",
            RecordType::AAAA => "AAAA",
            RecordType::CNAME => "CNAME",
            RecordType::MX => "MX",
            RecordType::NS => "NS",
            RecordType::TXT => "TXT",
        };
        proof {
            reveal_strlit("A");
            reveal_strlit("AAAA");
            reveal_strlit("CNAME");
            reveal_strlit("MX");
            reveal_strlit("NS");
            reveal_strlit("TXT");
            assert(s@ =~= wire_type(*self));
        }
        s.to_owned()
    }
}

/// A record to create: its domain, type, host name and content.
#[derive(Debug)]
pub struct DnsRecordSpec {
    pub domain: String,
    pub typ: RecordType,
    pub name: String,
    pub content: String,
}

/// `call` is the login request for these credentials.
pub open spec fn is_login_call(call: RpcCall, user: Seq<char>, pass: Seq<char>) -> bool {
    &&& call.method@ == "account.login"@
    &&& call.params.wf()
    &&& holds_text(call.params.get_spec("user"@), user)
    &&& holds_text(call.params.get_spec("pass"@), pass)
}

/// `call` is the request that creates the record `spec`.
pub open spec fn is_create_call(call: RpcCall, spec: DnsRecordSpec) -> bool {
    &&& call.method@ == "nameserver.createRecord"@
    &&& call.params.wf()
    &&& holds_text(call.params.get_spec("domain"@), spec.domain@)
    &&& holds_text(call.params.get_spec("type"@), wire_type(spec.typ))
    &&& holds_text(call.params.get_spec("name"@), spec.name@)
    &&& holds_text(call.params.get_spec("content"@), spec.content@)
}

/// `call` is the request that deletes the record numbered `id`.
pub open spec fn is_delete_call(call: RpcCall, id: i32) -> bool {
    &&& call.method@ == "nameserver.deleteRecord"@
    &&& call.params.wf()
    &&& call.params.get_spec("id"@) == Some(Value::Int(id))
}

/// `call` is the request that ends the session.
pub open spec fn is_logout_call(call: RpcCall) -> bool {
    &&& call.method@ == "account.logout"@
    &&& call.params.wf()
    &&& forall|k: Seq<char>| #[trigger] call.params.get_spec(k) is None
}

/// The record number in a creation payload, if it holds one.
pub open spec fn payload_id(payload: Option<Params>) -> Option<i32> {
    match payload {
        Some(p) => match p.get_spec("id"@) {
            Some(Value::Int(n)) => Some(n),
            _ => None,
        },
        None => None,
    }
}

/// What a record creation returns for the outcome of its exchange.
pub open spec fn created_result(outcome: Result<RpcResponse, TransportFailure>) -> Result<i32, ApiFailure> {
    match failure_of(outcome) {
        Some(f) => Err(f),
        None => match payload_id(outcome->Ok_0.payload) {
            Some(n) => Ok(n),
            None => Err(ApiFailure::Transport(TransportFailure::Decode)),
        },
    }
}

/// What an operation without a result (delete, logout) returns for the
/// outcome of its exchange.
pub open spec fn unit_result(outcome: Result<RpcResponse, TransportFailure>) -> Result<(), ApiFailure> {
    match failure_of(outcome) {
        Some(f) => Err(f),
        None => Ok(()),
    }
}

/// The client side of a session with the registrar.
///
/// The client builds each request and takes back the outcome of its
/// exchange; it holds the session token while logged in.
pub struct Client {
    state: SessionState,
    token: Option<String>,
}

impl Client {
    /// The session token is held exactly while logged in.
    pub open spec fn wf(&self) -> bool {
        (self.state_spec() == SessionState::LoggedIn) == (self.token_spec() is Some)
    }

    pub closed spec fn state_spec(&self) -> SessionState {
        self.state
    }

    pub closed spec fn token_spec(&self) -> Option<String> {
        self.token
    }

    pub open spec fn logged_in(&self) -> bool {
        self.state_spec() == SessionState::LoggedIn
    }

    /// A client without a session.
    pub fn new() -> (r: Client)
        ensures
            r.wf(),
            r.state_spec() == SessionState::LoggedOut,
            r.token_spec() is None,
    {
        Client { state: SessionState::LoggedOut, token: None }
    }

    /// The current state of the session.
    pub fn state(&self) -> (r: SessionState)
        ensures
            r == self.state_spec(),
    {
        self.state
    }

    /// The session token to present on each request while logged in.
    pub fn session_token(&self) -> (r: Option<&String>)
        ensures
            match r {
                Some(t) => self.token_spec() == Some(*t),
                None => self.token_spec() is None,
            },
    {
        match &self.token {
            Some(t) => Some(t),
            None => None,
        }
    }

    /// The request that logs in with these credentials.
    pub fn login_call(&self, user: &str, pass: &str) -> (r: RpcCall)
        ensures
            is_login_call(r, user@, pass@),
    {
        proof {
            reveal_strlit("user");
            reveal_strlit("pass");
            assert("user"@ != "pass"@) by {
                assert("user"@[0] != "pass"@[0]);
            }
        }
        let mut call = RpcCall::new("account.login");
        call.params.insert("user", Value::Text(user.to_owned()));
        call.params.insert("pass", Value::Text(pass.to_owned()));
        call
    }

    /// Takes the outcome of the login exchange and the session token that
    /// the transport captured. The session is live after a success status
    /// that came with a token; after anything else it is not.
    pub fn finish_login(
        &mut self,
        outcome: Result<RpcResponse, TransportFailure>,
        token: Option<String>,
    ) -> (r: Result<(), ApiFailure>)
        ensures
            final(self).wf(),
            r == match failure_of(outcome) {
                Some(f) => Err(f),
                None => if token is Some {
                    Ok(())
                } else {
                    Err(ApiFailure::NotAuthenticated)
                },
            },
            r is Ok ==> final(self).state_spec() == SessionState::LoggedIn && final(self).token_spec() == token,
            r is Err ==> final(self).state_spec() == SessionState::LoggedOut && final(self).token_spec() is None,
    {
        match interpret(outcome) {
            Err(f) => {
                self.state = SessionState::LoggedOut;
                self.token = None;
                Err(f)
            },
            Ok(_) => match token {
                Some(t) => {
                    self.state = SessionState::LoggedIn;
                    self.token = Some(t);
                    Ok(())
                },
                None => {
                    self.state = SessionState::LoggedOut;
                    self.token = None;
                    Err(ApiFailure::NotAuthenticated)
                },
            },
        }
    }

    /// The request that creates the record `spec`; without a live session,
    /// `NotAuthenticated` and no request.
    pub fn create_record_call(&self, spec: &DnsRecordSpec) -> (r: Result<RpcCall, ApiFailure>)
        ensures
            !self.logged_in() ==> (r matches Err(ApiFailure::NotAuthenticated)),
            self.logged_in() ==> (r matches Ok(call) && is_create_call(call, *spec)),
    {
        if self.state != SessionState::LoggedIn {
            return Err(ApiFailure::NotAuthenticated);
        }
        proof {
            reveal_strlit("domain");
            reveal_strlit("type");
            reveal_strlit("name");
            reveal_strlit("content");
            assert("type"@ != "name"@) by {
                assert("type"@[0] != "name"@[0]);
            }
            assert("domain"@.len() != "content"@.len());
            assert("domain"@.len() != "type"@.len());
            assert("domain"@.len() != "name"@.len());
            assert("content"@.len() != "type"@.len());
            assert("content"@.len() != "name"@.len());
        }
        let mut call = RpcCall::new("nameserver.createRecord");
        call.params.insert("domain", Value::Text(spec.domain.clone()));
        call.params.insert("type", Value::Text(spec.typ.name()));
        call.params.insert("name", Value::Text(spec.name.clone()));
        call.params.insert("content", Value::Text(spec.content.clone()));
        Ok(call)
    }

    /// The number of the created record, from the outcome of the creation
    /// exchange; a success without a numeric `id` in its payload is a
    /// decode failure.
    pub fn finish_create_record(&self, outcome: Result<RpcResponse, TransportFailure>) -> (r: Result<
        i32,
        ApiFailure,
    >)
        ensures
            r == created_result(outcome),
    {
        match interpret(outcome) {
            Err(f) => Err(f),
            Ok(payload) => {
                let id = match &payload {
                    Some(p) => match p.get("id") {
                        Some(Value::Int(n)) => Some(*n),
                        _ => None,
                    },
                    None => None,
                };
                match id {
                    Some(n) => Ok(n),
                    None => Err(ApiFailure::Transport(TransportFailure::Decode)),
                }
            },
        }
    }

    /// The request that deletes the record numbered `id`; without a live
    /// session, `NotAuthenticated` and no request.
    pub fn delete_record_call(&self, id: i32) -> (r: Result<RpcCall, ApiFailure>)
        ensures
            !self.logged_in() ==> (r matches Err(ApiFailure::NotAuthenticated)),
            self.logged_in() ==> (r matches Ok(call) && is_delete_call(call, id)),
    {
        if self.state != SessionState::LoggedIn {
            return Err(ApiFailure::NotAuthenticated);
        }
        let mut call = RpcCall::new("nameserver.deleteRecord");
        call.params.insert("id", Value::Int(id));
        Ok(call)
    }

    /// The result of a deletion, from the outcome of its exchange.
    pub fn finish_delete_record(&self, outcome: Result<RpcResponse, TransportFailure>) -> (r: Result<
        (),
        ApiFailure,
    >)
        ensures
            r == unit_result(outcome),
    {
        match interpret(outcome) {
            Err(f) => Err(f),
            Ok(_) => Ok(()),
        }
    }

    /// The request that ends a live session; none when there is no session
    /// to end.
    pub fn logout_call(&self) -> (r: Option<RpcCall>)
        ensures
            !self.logged_in() ==> r is None,
            self.logged_in() ==> (r matches Some(call) && is_logout_call(call)),
    {
        if self.state != SessionState::LoggedIn {
            return None;
        }
        Some(RpcCall::new("account.logout"))
    }

    /// Ends the session locally, whatever the outcome of the logout
    /// exchange, and reports that outcome.
    pub fn finish_logout(&mut self, outcome: Result<RpcResponse, TransportFailure>) -> (r: Result<
        (),
        ApiFailure,
    >)
        ensures
            final(self).wf(),
            final(self).state_spec() == SessionState::LoggedOut,
            final(self).token_spec() is None,
            r == unit_result(outcome),
    {
        self.state = SessionState::LoggedOut;
        self.token = None;
        match interpret(outcome) {
            Err(f) => Err(f),
            Ok(_) => Ok(()),
        }
    }

    /// Ends the session locally without an exchange; on a client without a
    /// session this changes nothing.
    pub fn drop_session(&mut self)
        ensures
            final(self).wf(),
            final(self).state_spec() == SessionState::LoggedOut,
            final(self).token_spec() is None,
    {
        self.state = SessionState::LoggedOut;
        self.token = None;
    }
}

/// Round trip: on a live session, a creation whose exchange yields record
/// number `id` leaves the session live, the deletion request is then the
/// one for `id`, and the deletion succeeds when the service reports success.
pub proof fn lemma_create_then_delete(
    client: Client,
    created: Result<RpcResponse, TransportFailure>,
    id: i32,
    deleted: Result<RpcResponse, TransportFailure>,
)
    requires
        client.wf(),
        client.logged_in(),
        created_result(created) == Ok::<i32, ApiFailure>(id),
        deleted matches Ok(resp) && is_success_code(resp.code),
    ensures
        failure_of(created) is None,
        payload_id(created->Ok_0.payload) == Some(id),
        unit_result(deleted) == Ok::<(), ApiFailure>(()),
{
}

/// A failure of the transport never reads as a refusal by the service, and
/// a refusal keeps the service's code and message as they came.
pub proof fn lemma_failure_kinds(outcome: Result<RpcResponse, TransportFailure>)
    ensures
        outcome is Err ==> failure_of(outcome) == Some(ApiFailure::Transport(outcome->Err_0)),
        outcome is Ok && !is_success_code(outcome->Ok_0.code) ==> failure_of(outcome) == Some(
            ApiFailure::CallError(outcome->Ok_0.code, outcome->Ok_0.message),
        ),
{
}

} // verus!
