//! The session: the server's token and the last raw answer, threaded from
//! one request to the next.
//!
//! Each operation comes in two halves. The first builds the request to send
//! with the session's current token; the caller sends it and hands the reply
//! (or the failure) to the second, which decides the session's next state
//! and the operation's result. A failed operation leaves the session as it
//! was, so that it can be used again.
use vstd::prelude::*;
use crate::json::{Json, JsonView, fields_view, items_view, lemma_fields_view};
use crate::protocol::{
    Answer,
    ClientError,
    EnvelopeView,
    Request,
    RpcFailure,
    answer_of,
    call_request_of,
    decode_answer,
    decode_envelope,
    decode_error_payload,
    envelope_of,
    error_payload_of,
    failure_message,
    load_module_request_of,
};

verus! {

/// A live session with the evaluator service.
#[derive(Debug)]
pub struct CryptolClient {
    state: String,
    answer: Json,
    module: String,
}

/// The model of a session: its token, the last raw answer, and the module
/// that was loaded last.
pub struct SessionView {
    pub token: Seq<char>,
    pub answer: JsonView,
    pub module: Seq<char>,
}

impl View for CryptolClient {
    type V = SessionView;

    closed spec fn view(&self) -> SessionView {
        SessionView { token: self.state@, answer: self.answer@, module: self.module@ }
    }
}

/// The session after a request that loaded `module` came back with the
/// envelope `e`: the token and the answer are the envelope's.
pub open spec fn session_after(module: Seq<char>, e: EnvelopeView) -> SessionView {
    SessionView { token: e.state, answer: e.answer, module }
}

/// The module that a new session loads.
pub open spec fn prelude_module() -> Seq<char> {
    "Cryptol"@
}

fn object_of(fields: Vec<(String, Json)>) -> (r: Json)
    ensures
        r@ == JsonView::Object(fields_view(fields, fields.len() as int)),
{
    Json::Object(fields)
}

fn load_module_request(token: Option<&String>, module: &str) -> (r: Request)
    ensures
        r@ == load_module_request_of(
            match token {
                Some(t) => Some(t@),
                None => None,
            },
            module@,
        ),
{
    let state = match token {
        Some(t) => Json::Str(t.clone()),
        None => Json::Null,
    };
    let mut fields: Vec<(String, Json)> = Vec::new();
    fields.push((String::from_str("state"), state));
    fields.push((String::from_str("module name"), Json::Str(String::from_str(module))));
    let params = object_of(fields);
    proof {
        lemma_fields_view(fields, 2);
        assert(fields_view(fields, 2) =~= load_module_request_of(
            match token {
                Some(t) => Some(t@),
                None => None,
            },
            module@,
        ).params->Object_0);
    }
    Request { method: String::from_str("load module"), params }
}

impl CryptolClient {
    /// The token that the server gave last.
    pub fn token(&self) -> (r: &String)
        ensures
            r@ == self@.token,
    {
        &self.state
    }

    /// The raw answer of the last successful request.
    pub fn last_answer(&self) -> (r: &Json)
        ensures
            r@ == self@.answer,
    {
        &self.answer
    }

    /// The module that was loaded last.
    pub fn module(&self) -> (r: &String)
        ensures
            r@ == self@.module,
    {
        &self.module
    }

    /// Checks the endpoint and builds the request that opens a session: it
    /// loads the prelude with no token. Without an endpoint (or with an empty
    /// one) nothing is to be sent and the result is a `ConnectionError`.
    pub fn connect_request(endpoint: Option<String>) -> (r: Result<(String, Request), ClientError>)
        ensures
            match endpoint {
                Some(e) => if e@.len() > 0 {
                    r matches Ok((x, req)) && x@ == e@ && req@ == load_module_request_of(
                        None,
                        prelude_module(),
                    )
                } else {
                    r matches Err(ClientError::ConnectionError(_))
                },
                None => r matches Err(ClientError::ConnectionError(_)),
            },
    {
        match endpoint {
            Some(e) => {
                if e.unicode_len() == 0 {
                    return Err(ClientError::ConnectionError(String::from_str("the endpoint is empty")));
                }
                let req = load_module_request(None, "Cryptol");
                Ok((e, req))
            },
            None => Err(ClientError::ConnectionError(String::from_str("no endpoint is configured"))),
        }
    }

    /// Opens the session from the reply to the request of `connect_request`.
    /// Any failure is a `ConnectionError`.
    pub fn connect(reply: Result<Json, RpcFailure>) -> (r: Result<CryptolClient, ClientError>)
        ensures
            match reply {
                Ok(v) => match envelope_of(v@) {
                    Some(e) => r matches Ok(c) && c@ == session_after(prelude_module(), e),
                    None => r matches Err(ClientError::ConnectionError(_)),
                },
                Err(f) => r matches Err(ClientError::ConnectionError(m)) && m@ == failure_message(f),
            },
    {
        match reply {
            Ok(v) => match decode_envelope(&v) {
                Ok(e) => Ok(CryptolClient { state: e.state, answer: e.answer, module: String::from_str("Cryptol") }),
                Err(_) => Err(ClientError::ConnectionError(String::from_str("the prelude's reply is no envelope"))),
            },
            Err(RpcFailure::Transport(m)) => Err(ClientError::ConnectionError(m)),
            Err(RpcFailure::Server { message, .. }) => Err(ClientError::ConnectionError(message)),
        }
    }

    /// Builds the request that loads `module` under the current token.
    pub fn load_module_request(&self, module: &str) -> (r: Request)
        ensures
            r@ == load_module_request_of(Some(self@.token), module@),
    {
        load_module_request(Some(&self.state), module)
    }

    /// Takes the reply to the request of `load_module_request` for `module`.
    /// On an envelope the session takes its token and answer; otherwise it
    /// stays as it was, and the error says why: a structured account from
    /// the server gives `ModuleNotFoundError`, a bare message `RpcError`.
    pub fn load_module(&mut self, module: &str, reply: Result<Json, RpcFailure>) -> (r: Result<(), ClientError>)
        ensures
            match reply {
                Ok(v) => match envelope_of(v@) {
                    Some(e) => r is Ok && final(self)@ == session_after(module@, e),
                    None => r matches Err(ClientError::DecodeError(_)) && final(self)@ == old(self)@,
                },
                Err(RpcFailure::Transport(m)) => r matches Err(ClientError::RpcError(x)) && x@ == m@
                    && final(self)@ == old(self)@,
                Err(RpcFailure::Server { code, message, data }) => final(self)@ == old(self)@ && match error_payload_of(
                    code as int,
                    message@,
                    data@,
                ) {
                    Some(p) => r matches Err(ClientError::ModuleNotFoundError(x)) && x@ == p,
                    None => r matches Err(ClientError::RpcError(x)) && x@ == message@,
                },
            },
    {
        match reply {
            Ok(v) => match decode_envelope(&v) {
                Ok(e) => {
                    self.state = e.state;
                    self.answer = e.answer;
                    self.module = String::from_str(module);
                    Ok(())
                },
                Err(err) => Err(err),
            },
            Err(RpcFailure::Transport(m)) => Err(ClientError::RpcError(m)),
            Err(RpcFailure::Server { code, message, data }) => match decode_error_payload(code, &message, &data) {
                Some(p) => Err(ClientError::ModuleNotFoundError(p)),
                None => Err(ClientError::RpcError(message)),
            },
        }
    }

    /// Builds the request that calls `function` on `arguments` under the
    /// current token.
    pub fn call_request(&self, function: &str, arguments: Vec<Json>) -> (r: Request)
        ensures
            r@ == call_request_of(self@.token, function@, items_view(arguments, arguments.len() as int)),
    {
        let ghost args = items_view(arguments, arguments.len() as int);
        let mut fields: Vec<(String, Json)> = Vec::new();
        fields.push((String::from_str("state"), Json::Str(self.state.clone())));
        fields.push((String::from_str("function"), Json::Str(String::from_str(function))));
        fields.push((String::from_str("arguments"), Json::Array(arguments)));
        let params = object_of(fields);
        proof {
            lemma_fields_view(fields, 3);
            assert(fields_view(fields, 3) =~= call_request_of(self@.token, function@, args).params->Object_0);
        }
        Request { method: String::from_str("call"), params }
    }

    /// Takes the reply to the request of `call_request`. On an envelope whose
    /// answer decodes, the session takes the envelope's token and answer and
    /// the decoded answer comes back. Otherwise the session stays as it was:
    /// a refusal by the evaluator is an `EvaluationError`, with the server's
    /// account where it gave one; an envelope or answer of another shape is a
    /// `DecodeError`.
    pub fn call(&mut self, reply: Result<Json, RpcFailure>) -> (r: Result<Answer, ClientError>)
        ensures
            match reply {
                Ok(v) => match envelope_of(v@) {
                    Some(e) => match answer_of(e.answer) {
                        Some(a) => r matches Ok(x) && x@ == a && final(self)@ == session_after(
                            old(self)@.module,
                            e,
                        ),
                        None => r matches Err(ClientError::DecodeError(_)) && final(self)@ == old(self)@,
                    },
                    None => r matches Err(ClientError::DecodeError(_)) && final(self)@ == old(self)@,
                },
                Err(RpcFailure::Transport(m)) => {
                    &&& final(self)@ == old(self)@
                    &&& r matches Err(ClientError::EvaluationError { message, payload })
                    &&& message@ == m@
                    &&& payload is None
                },
                Err(RpcFailure::Server { code, message, data }) => {
                    &&& final(self)@ == old(self)@
                    &&& r matches Err(ClientError::EvaluationError { message: x, payload })
                    &&& x@ == message@
                    &&& match error_payload_of(code as int, message@, data@) {
                        Some(p) => payload matches Some(q) && q@ == p,
                        None => payload is None,
                    }
                },
            },
    {
        match reply {
            Ok(v) => match decode_envelope(&v) {
                Ok(e) => match decode_answer(&e.answer) {
                    Ok(a) => {
                        self.state = e.state;
                        self.answer = e.answer;
                        Ok(a)
                    },
                    Err(err) => Err(err),
                },
                Err(err) => Err(err),
            },
            Err(RpcFailure::Transport(m)) => Err(ClientError::EvaluationError { message: m, payload: None }),
            Err(RpcFailure::Server { code, message, data }) => {
                let payload = decode_error_payload(code, &message, &data);
                Err(ClientError::EvaluationError { message, payload })
            },
        }
    }
}

} // verus!
