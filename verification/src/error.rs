//! What a request is refused with, and how answers are framed in JSON-RPC.
use crate::json::{Json, JsonNumber, JsonView, Members};
use crate::text::cat;
use vstd::prelude::*;

verus! {

/// What an operation of the runtime returns.
pub type RuntimeResult<T> = Result<T, RuntimeError>;

/// Why a request is refused.
#[derive(Debug)]
pub struct RuntimeError {
    pub code: i64,
    pub message: String,
    pub kind: Option<&'static str>,
}

/// The mathematical view of a refusal.
pub struct ErrorView {
    pub code: int,
    pub message: Seq<char>,
    pub kind: Option<Seq<char>>,
}

impl View for RuntimeError {
    type V = ErrorView;

    open spec fn view(&self) -> ErrorView {
        ErrorView {
            code: self.code as int,
            message: self.message@,
            kind: match self.kind {
                Some(kind) => Some(kind@),
                None => None,
            },
        }
    }
}

impl ErrorView {
    /// The request's parameters are at fault.
    pub open spec fn invalid_params(message: Seq<char>) -> ErrorView {
        ErrorView { code: -32602, message, kind: None }
    }

    /// The method is not one of the runtime's.
    pub open spec fn method_not_found(method: Seq<char>) -> ErrorView {
        ErrorView {
            code: -32601,
            message: "Unsupported native host method: "@ + method,
            kind: None,
        }
    }

    /// A fault of a kind that callers tell apart.
    pub open spec fn typed(kind: Seq<char>, message: Seq<char>) -> ErrorView {
        ErrorView { code: 1, message, kind: Some(kind) }
    }

    /// A fault of the runtime itself.
    pub open spec fn internal(message: Seq<char>) -> ErrorView {
        ErrorView { code: 1, message, kind: Some("app_server_runtime_error"@) }
    }
}

/// Whether a result is the refusal `e`.
pub open spec fn fails_with<T>(r: RuntimeResult<T>, e: ErrorView) -> bool {
    r is Err && r->Err_0@ == e
}

/// A signed number in JSON.
pub open spec fn integer_view(n: int) -> JsonView {
    JsonView::Number(
        if n >= 0 {
            JsonNumber::PosInt(n as u64)
        } else {
            JsonNumber::NegInt(n as i64)
        },
    )
}

/// The `data` member of a refusal: its kind, or null.
pub open spec fn kind_view(kind: Option<Seq<char>>) -> JsonView {
    match kind {
        Some(kind) => JsonView::Object(map!["type"@ => JsonView::Text(kind)]),
        None => JsonView::Null,
    }
}

/// The JSON-RPC answer that refuses the request `id`.
pub open spec fn error_reply(id: JsonView, e: ErrorView) -> JsonView {
    JsonView::Object(
        map![
            "jsonrpc"@ => JsonView::Text("2.0"@),
            "id"@ => id,
            "error"@ => JsonView::Object(map![
                "code"@ => integer_view(e.code),
                "message"@ => JsonView::Text(e.message),
                "data"@ => kind_view(e.kind),
            ]),
        ],
    )
}

/// The JSON-RPC answer that grants the request `id`.
pub open spec fn result_reply(id: JsonView, result: JsonView) -> JsonView {
    JsonView::Object(
        map![
            "jsonrpc"@ => JsonView::Text("2.0"@),
            "id"@ => id,
            "result"@ => result,
        ],
    )
}

impl RuntimeError {
    /// The request's parameters are at fault.
    pub fn invalid_params(message: &str) -> (r: RuntimeError)
        ensures
            r@ == ErrorView::invalid_params(message@),
    {
        RuntimeError { code: -32602, message: message.to_owned(), kind: None }
    }

    /// The method is not one of the runtime's.
    pub fn method_not_found(method: &str) -> (r: RuntimeError)
        ensures
            r@ == ErrorView::method_not_found(method@),
    {
        RuntimeError {
            code: -32601,
            message: cat("Unsupported native host method: ", method),
            kind: None,
        }
    }

    /// A fault of a kind that callers tell apart.
    pub fn typed(kind: &'static str, message: &str) -> (r: RuntimeError)
        ensures
            r@ == ErrorView::typed(kind@, message@),
    {
        RuntimeError { code: 1, message: message.to_owned(), kind: Some(kind) }
    }

    /// A fault of the runtime itself.
    pub fn internal(message: &str) -> (r: RuntimeError)
        ensures
            r@ == ErrorView::internal(message@),
    {
        RuntimeError {
            code: 1,
            message: message.to_owned(),
            kind: Some("app_server_runtime_error"),
        }
    }

    /// A fault of the runtime itself, with the reason the system gave.
    pub fn failure(what: &str, reason: &str) -> (r: RuntimeError)
        ensures
            r@ == ErrorView::internal(what@ + reason@),
    {
        RuntimeError::internal(cat(what, reason).as_str())
    }

    /// The JSON-RPC answer that refuses the request `id` for this reason.
    pub fn response(&self, id: Json) -> (r: Json)
        ensures
            r@ == error_reply(id@, self@),
    {
        let data = match self.kind {
            Some(kind) => {
                let mut data = Members::new();
                data.put("type", Json::text(kind));
                data.object()
            },
            None => Json::Null,
        };
        let code = if self.code >= 0 {
            Json::Number(JsonNumber::PosInt(self.code as u64))
        } else {
            Json::Number(JsonNumber::NegInt(self.code))
        };
        let mut error = Members::new();
        error.put("code", code);
        error.put("message", Json::text(self.message.as_str()));
        error.put("data", data);
        let mut reply = Members::new();
        reply.put("jsonrpc", Json::text("2.0"));
        reply.put("id", id);
        reply.put("error", error.object());
        reply.object()
    }
}

/// The JSON-RPC answer to the request `id`.
pub fn respond(id: Json, result: RuntimeResult<Json>) -> (r: Json)
    ensures
        match result {
            Ok(value) => r@ == result_reply(id@, value@),
            Err(error) => r@ == error_reply(id@, error@),
        },
{
    match result {
        Ok(value) => {
            let mut reply = Members::new();
            reply.put("jsonrpc", Json::text("2.0"));
            reply.put("id", id);
            reply.put("result", value);
            reply.object()
        },
        Err(error) => error.response(id),
    }
}

} // verus!
