//! The JSON-RPC 2.0 envelope.

use crate::fields::{
    document_view, field, optional_text, optional_u64, read_optional_text, read_optional_u64,
    read_required_i64, read_required_text, required_i64, required_text, text_view,
};
use crate::json::{get, is_object, json_view, JsonView};
use crate::text::{signed_decimal, signed_decimal_string};
use vstd::prelude::*;
use vstd::string::StringExecFns;

verus! {

/// A request as this side sends it.
#[derive(Debug)]
pub struct JsonRpcRequest {
    pub jsonrpc: &'static str,
    pub id: u64,
    pub method: String,
    pub params: Option<serde_json::Value>,
}

impl JsonRpcRequest {
    /// A request of protocol version 2.0.
    pub fn new(id: u64, method: &str, params: Option<serde_json::Value>) -> (request: Self)
        ensures
            request.jsonrpc@ == "2.0"@,
            request.id == id,
            request.method@ == method@,
            request.params == params,
    {
        JsonRpcRequest { jsonrpc: "2.0", id, method: String::from_str(method), params }
    }
}

/// The error object of a response.
#[derive(Debug, Clone)]
pub struct JsonRpcError {
    pub code: i64,
    pub message: String,
    pub data: Option<serde_json::Value>,
}

/// The content of a [`JsonRpcError`].
pub struct JsonRpcErrorView {
    pub code: i64,
    pub message: Seq<char>,
    pub data: Option<JsonView>,
}

impl View for JsonRpcError {
    type V = JsonRpcErrorView;

    open spec fn view(&self) -> JsonRpcErrorView {
        JsonRpcErrorView {
            code: self.code,
            message: self.message@,
            data: document_view(self.data),
        }
    }
}

impl JsonRpcErrorView {
    /// The error object that a document holds: an object with an integer
    /// `code`, a text `message` and, optionally, `data` of any shape.
    pub open spec fn of(doc: JsonView) -> Option<JsonRpcErrorView> {
        match (required_i64(doc, "code"@), required_text(doc, "message"@)) {
            (Some(code), Some(message)) => Some(
                JsonRpcErrorView { code, message, data: doc.field("data"@) },
            ),
            _ => None,
        }
    }

    /// The description of the error.
    pub open spec fn description(self) -> Seq<char> {
        "JSON-RPC error "@ + signed_decimal(self.code as int) + ": "@ + self.message
    }
}

impl JsonRpcError {
    /// Reads an error object out of a document.
    pub fn from_value(doc: &serde_json::Value) -> (read: Option<JsonRpcError>)
        ensures
            match read {
                Some(error) => JsonRpcErrorView::of(json_view(*doc)) == Some(error@),
                None => JsonRpcErrorView::of(json_view(*doc)) is None,
            },
    {
        let code = match read_required_i64(doc, "code") {
            Some(code) => code,
            None => return None,
        };
        let message = match read_required_text(doc, "message") {
            Some(message) => message,
            None => return None,
        };
        let data = match field(doc, "data") {
            Some(data) => Some(data.clone()),
            None => None,
        };
        Some(JsonRpcError { code, message, data })
    }

    /// The description of the error: its code and its message.
    pub fn describe(&self) -> (text: String)
        ensures
            text@ == self@.description(),
    {
        let mut text = String::from_str("JSON-RPC error ");
        let code = signed_decimal_string(self.code);
        text.append(code.as_str());
        text.append(": ");
        text.append(self.message.as_str());
        text
    }
}

/// One inbound message: a response, a notification or a request of the
/// other side, told apart by the members that are present.
#[derive(Debug)]
pub struct JsonRpcResponse {
    pub id: Option<u64>,
    pub result: Option<serde_json::Value>,
    pub error: Option<JsonRpcError>,
    pub method: Option<String>,
    pub params: Option<serde_json::Value>,
}

/// The content of a [`JsonRpcResponse`].
pub struct JsonRpcResponseView {
    pub id: Option<u64>,
    pub result: Option<JsonView>,
    pub error: Option<JsonRpcErrorView>,
    pub method: Option<Seq<char>>,
    pub params: Option<JsonView>,
}

/// The view of an optional error object.
pub open spec fn error_view(error: Option<JsonRpcError>) -> Option<JsonRpcErrorView> {
    match error {
        Some(e) => Some(e@),
        None => None,
    }
}

impl View for JsonRpcResponse {
    type V = JsonRpcResponseView;

    open spec fn view(&self) -> JsonRpcResponseView {
        JsonRpcResponseView {
            id: self.id,
            result: document_view(self.result),
            error: error_view(self.error),
            method: text_view(self.method),
            params: document_view(self.params),
        }
    }
}

impl JsonRpcResponseView {
    /// The error member of an envelope. The outer `None` says that the member
    /// is there and is not an error object.
    pub open spec fn error_member(doc: JsonView) -> Option<Option<JsonRpcErrorView>> {
        match doc.field("error"@) {
            None => Some(None),
            Some(member) => match JsonRpcErrorView::of(member) {
                Some(error) => Some(Some(error)),
                None => None,
            },
        }
    }

    /// The envelope that a document holds. A document is an envelope where it
    /// is an object whose `id`, if any, is an unsigned 64-bit integer, whose
    /// `method`, if any, is a text, and whose `error`, if any, is an error
    /// object. Members of other names are passed over. A `null` under `id`,
    /// `error`, `method` or `params` counts as no member; a `null` under
    /// `result` is a result like any other.
    pub open spec fn of(doc: JsonView) -> Option<JsonRpcResponseView> {
        if !(doc is Object) {
            None
        } else {
            match (
                optional_u64(doc, "id"@),
                JsonRpcResponseView::error_member(doc),
                optional_text(doc, "method"@),
            ) {
                (Some(id), Some(error), Some(method)) => Some(
                    JsonRpcResponseView {
                        id,
                        result: doc.member("result"@),
                        error,
                        method,
                        params: doc.field("params"@),
                    },
                ),
                _ => None,
            }
        }
    }
}

impl JsonRpcResponse {
    /// Reads an envelope out of a document.
    pub fn from_value(doc: &serde_json::Value) -> (read: Option<JsonRpcResponse>)
        ensures
            match read {
                Some(envelope) => JsonRpcResponseView::of(json_view(*doc)) == Some(envelope@),
                None => JsonRpcResponseView::of(json_view(*doc)) is None,
            },
    {
        if !is_object(doc) {
            return None;
        }
        let id = match read_optional_u64(doc, "id") {
            Some(id) => id,
            None => return None,
        };
        let error = match field(doc, "error") {
            None => None,
            Some(member) => match JsonRpcError::from_value(member) {
                Some(error) => Some(error),
                None => return None,
            },
        };
        let method = match read_optional_text(doc, "method") {
            Some(method) => method,
            None => return None,
        };
        let result = match get(doc, "result") {
            Some(result) => Some(result.clone()),
            None => None,
        };
        let params = match field(doc, "params") {
            Some(params) => Some(params.clone()),
            None => None,
        };
        Some(JsonRpcResponse { id, result, error, method, params })
    }
}

} // verus!
