//! The session protocol: the requests that a session sends, the envelope
//! that every reply shares, the error taxonomy, and the session itself.
use vstd::prelude::*;
use crate::json::{
    Json,
    JsonView,
    fields_view,
    items_of,
    items_view,
    lemma_fields_view,
    member_of,
    str_member_of,
    strings_of,
};

verus! {

/// A remote procedure call: its name and its named parameters (an object).
#[derive(Debug)]
pub struct Request {
    pub method: String,
    pub params: Json,
}

pub struct RequestView {
    pub method: Seq<char>,
    pub params: JsonView,
}

impl View for Request {
    type V = RequestView;

    open spec fn view(&self) -> RequestView {
        RequestView { method: self.method@, params: self.params@ }
    }
}

/// The `load module` request: the token (`null` for a new session) and the
/// module's name.
pub open spec fn load_module_request_of(token: Option<Seq<char>>, module: Seq<char>) -> RequestView {
    RequestView {
        method: "load module"@,
        params: JsonView::Object(
            seq![
                ("state"@, match token {
                    Some(t) => JsonView::Str(t),
                    None => JsonView::Null,
                }),
                ("module name"@, JsonView::Str(module)),
            ],
        ),
    }
}

/// The `call` request: the token, the function's name and its arguments.
pub open spec fn call_request_of(token: Seq<char>, function: Seq<char>, arguments: Seq<JsonView>) -> RequestView {
    RequestView {
        method: "call"@,
        params: JsonView::Object(
            seq![
                ("state"@, JsonView::Str(token)),
                ("function"@, JsonView::Str(function)),
                ("arguments"@, JsonView::Array(arguments)),
            ],
        ),
    }
}

/// The reply that every request receives on success.
#[derive(Debug)]
pub struct Envelope {
    pub answer: Json,
    pub state: String,
    pub stdout: String,
    pub stderr: String,
}

pub struct EnvelopeView {
    pub answer: JsonView,
    pub state: Seq<char>,
    pub stdout: Seq<char>,
    pub stderr: Seq<char>,
}

impl View for Envelope {
    type V = EnvelopeView;

    open spec fn view(&self) -> EnvelopeView {
        EnvelopeView {
            answer: self.answer@,
            state: self.state@,
            stdout: self.stdout@,
            stderr: self.stderr@,
        }
    }
}

/// The envelope that a reply holds: an object with a nonempty `state` and
/// the texts `stdout` and `stderr`; its `answer` is `null` where absent.
pub open spec fn envelope_of(v: JsonView) -> Option<EnvelopeView> {
    match (str_member_of(v, "state"@), str_member_of(v, "stdout"@), str_member_of(v, "stderr"@)) {
        (Some(state), Some(stdout), Some(stderr)) => if state.len() > 0 {
            Some(
                EnvelopeView {
                    answer: match member_of(v, "answer"@) {
                        Some(a) => a,
                        None => JsonView::Null,
                    },
                    state,
                    stdout,
                    stderr,
                },
            )
        } else {
            None
        },
        _ => None,
    }
}

/// The result of a `call`: a type descriptor, the type as text, and the value.
#[derive(Debug)]
pub struct Answer {
    pub answer_type: Json,
    pub type_string: String,
    pub value: Json,
}

pub struct AnswerView {
    pub answer_type: JsonView,
    pub type_string: Seq<char>,
    pub value: JsonView,
}

impl View for Answer {
    type V = AnswerView;

    open spec fn view(&self) -> AnswerView {
        AnswerView { answer_type: self.answer_type@, type_string: self.type_string@, value: self.value@ }
    }
}

/// The answer that an envelope's `answer` holds: an object with a `type`,
/// a `type string` text and a `value`.
pub open spec fn answer_of(v: JsonView) -> Option<AnswerView> {
    match (member_of(v, "type"@), str_member_of(v, "type string"@), member_of(v, "value"@)) {
        (Some(answer_type), Some(type_string), Some(value)) => Some(
            AnswerView { answer_type, type_string, value },
        ),
        _ => None,
    }
}

/// The server's account of a failed request.
#[derive(Debug)]
pub struct CryptolError {
    pub code: i64,
    pub data: CryptolErrorData,
    pub message: String,
}

#[derive(Debug)]
pub struct CryptolErrorData {
    pub data: CryptolDataData,
    pub stderr: String,
    pub stdout: String,
}

#[derive(Debug)]
pub struct CryptolDataData {
    pub path: Vec<String>,
    pub source: String,
    pub warnings: Vec<Json>,
}

pub struct CryptolErrorView {
    pub code: int,
    pub message: Seq<char>,
    pub path: Seq<Seq<char>>,
    pub source: Seq<char>,
    pub warnings: Seq<JsonView>,
    pub stderr: Seq<char>,
    pub stdout: Seq<char>,
}

impl View for CryptolError {
    type V = CryptolErrorView;

    open spec fn view(&self) -> CryptolErrorView {
        CryptolErrorView {
            code: self.code as int,
            message: self.message@,
            path: self.data.data.path@.map_values(|t: String| t@),
            source: self.data.data.source@,
            warnings: items_view(self.data.data.warnings, self.data.data.warnings.len() as int),
            stderr: self.data.stderr@,
            stdout: self.data.stdout@,
        }
    }
}

/// The structured account that an error's `data` holds: an object with
/// `stderr` and `stdout` texts and an inner `data` object that has a `path`
/// of texts, a `source` text and an array of `warnings`.
pub open spec fn error_payload_of(code: int, message: Seq<char>, data: JsonView) -> Option<CryptolErrorView> {
    match member_of(data, "data"@) {
        Some(inner) => match (
            strings_of(match member_of(inner, "path"@) {
                Some(p) => p,
                None => JsonView::Null,
            }),
            str_member_of(inner, "source"@),
            items_of(match member_of(inner, "warnings"@) {
                Some(w) => w,
                None => JsonView::Null,
            }),
            str_member_of(data, "stderr"@),
            str_member_of(data, "stdout"@),
        ) {
            (Some(path), Some(source), Some(warnings), Some(stderr), Some(stdout)) => Some(
                CryptolErrorView { code, message, path, source, warnings, stderr, stdout },
            ),
            _ => None,
        },
        None => None,
    }
}

/// How a request failed before an envelope came back.
#[derive(Debug)]
pub enum RpcFailure {
    /// The transport failed, or gave only a message.
    Transport(String),
    /// The server answered with an error object.
    Server { code: i64, message: String, data: Json },
}

/// The message that a failure carries.
pub open spec fn failure_message(f: RpcFailure) -> Seq<char> {
    match f {
        RpcFailure::Transport(m) => m@,
        RpcFailure::Server { message, .. } => message@,
    }
}

/// What went wrong in an operation of the session.
#[derive(Debug)]
pub enum ClientError {
    /// No endpoint, no connection, or the prelude could not be loaded.
    ConnectionError(String),
    /// The server could not find a module, with its account of the search.
    ModuleNotFoundError(CryptolError),
    /// A request failed and no structured account came with it.
    RpcError(String),
    /// The evaluator refused a call.
    EvaluationError { message: String, payload: Option<CryptolError> },
    /// A reply did not have the shape that was expected.
    DecodeError(String),
}

fn decode_error(what: &str) -> (r: ClientError)
    ensures
        r is DecodeError,
{
    ClientError::DecodeError(String::from_str(what))
}

/// Decodes a reply into its envelope.
pub fn decode_envelope(reply: &Json) -> (r: Result<Envelope, ClientError>)
    ensures
        match envelope_of(reply@) {
            Some(e) => r matches Ok(x) && x@ == e,
            None => r matches Err(ClientError::DecodeError(_)),
        },
{
    let state = match reply.text_member("state") {
        Some(t) => t,
        None => return Err(decode_error("the reply has no text `state`")),
    };
    let stdout = match reply.text_member("stdout") {
        Some(t) => t,
        None => return Err(decode_error("the reply has no text `stdout`")),
    };
    let stderr = match reply.text_member("stderr") {
        Some(t) => t,
        None => return Err(decode_error("the reply has no text `stderr`")),
    };
    if state.unicode_len() == 0 {
        return Err(decode_error("the reply's `state` is empty"));
    }
    let answer = match reply.member("answer") {
        Some(a) => a.duplicate(),
        None => Json::Null,
    };
    Ok(Envelope { answer, state, stdout, stderr })
}

/// Decodes an envelope's `answer` into an `Answer`.
pub fn decode_answer(v: &Json) -> (r: Result<Answer, ClientError>)
    ensures
        match answer_of(v@) {
            Some(a) => r matches Ok(x) && x@ == a,
            None => r matches Err(ClientError::DecodeError(_)),
        },
{
    let answer_type = match v.member("type") {
        Some(t) => t.duplicate(),
        None => return Err(decode_error("the answer has no `type`")),
    };
    let type_string = match v.text_member("type string") {
        Some(t) => t,
        None => return Err(decode_error("the answer has no text `type string`")),
    };
    let value = match v.member("value") {
        Some(t) => t.duplicate(),
        None => return Err(decode_error("the answer has no `value`")),
    };
    Ok(Answer { answer_type, type_string, value })
}

/// Decodes the server's structured account of a failure from an error
/// object's code, message and data.
pub fn decode_error_payload(code: i64, message: &String, data: &Json) -> (r: Option<CryptolError>)
    ensures
        match error_payload_of(code as int, message@, data@) {
            Some(p) => r matches Some(x) && x@ == p,
            None => r is None,
        },
{
    let inner = match data.member("data") {
        Some(d) => d,
        None => return None,
    };
    let path = match inner.member("path") {
        Some(p) => match p.strings() {
            Some(v) => v,
            None => return None,
        },
        None => {
            assert(strings_of(JsonView::Null) is None);
            return None;
        },
    };
    let source = match inner.text_member("source") {
        Some(t) => t,
        None => return None,
    };
    let warnings = match inner.member("warnings") {
        Some(w) => match w.items() {
            Some(v) => v,
            None => return None,
        },
        None => {
            assert(items_of(JsonView::Null) is None);
            return None;
        },
    };
    let stderr = match data.text_member("stderr") {
        Some(t) => t,
        None => return None,
    };
    let stdout = match data.text_member("stdout") {
        Some(t) => t,
        None => return None,
    };
    Some(
        CryptolError {
            code,
            data: CryptolErrorData { data: CryptolDataData { path, source, warnings }, stderr, stdout },
            message: message.clone(),
        },
    )
}

} // verus!
