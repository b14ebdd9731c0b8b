//! The wire codec: one JSON-RPC 2.0 object per line.

use crate::fields::document_view;
use crate::json::{json_parse, json_text, json_view, null, parse, print, string, JsonView};
use crate::text::{
    decimal, decimal_string, is_blank, lemma_decimal_single_line, lemma_single_line_concat,
    single_line, trimmed,
};
use crate::types::{
    JsonRpcError, JsonRpcErrorView, JsonRpcRequest, JsonRpcResponse, JsonRpcResponseView,
};
use vstd::pervasive::unreached;
use vstd::prelude::*;
use vstd::string::StringExecFns;

verus! {

/// The JSON text of a string: quoted and escaped.
pub open spec fn quoted(text: Seq<char>) -> Seq<char> {
    json_text(JsonView::String(text))
}

/// The line of a request: the members `jsonrpc`, `id`, `method` and, where
/// there are parameters, `params`, in this order.
pub open spec fn request_line(
    jsonrpc: Seq<char>,
    id: u64,
    method: Seq<char>,
    params: Option<JsonView>,
) -> Seq<char> {
    let head = "{\"jsonrpc\":"@ + quoted(jsonrpc) + ",\"id\":"@ + decimal(id as nat)
        + ",\"method\":"@ + quoted(method);
    match params {
        None => head + "}"@,
        Some(p) => head + ",\"params\":"@ + json_text(p) + "}"@,
    }
}

/// The line of a notification: the members `jsonrpc`, `method` and `params`,
/// in this order, with `null` for parameters that are not given.
pub open spec fn notification_line(method: Seq<char>, params: Option<JsonView>) -> Seq<char> {
    let body = match params {
        Some(p) => json_text(p),
        None => json_text(JsonView::Null),
    };
    "{\"jsonrpc\":\"2.0\",\"method\":"@ + quoted(method) + ",\"params\":"@ + body + "}"@
}

/// The line that grants a permission request for good.
pub open spec fn permission_line(id: u64) -> Seq<char> {
    "{\"jsonrpc\":\"2.0\",\"id\":"@ + decimal(id as nat)
        + ",\"result\":{\"outcome\":{\"outcome\":\"selected\",\"optionId\":\"allow_always\"}}}"@
}

/// Prints a document as compact JSON.
fn render(value: &serde_json::Value) -> (text: String)
    ensures
        text@ == json_text(json_view(*value)),
        single_line(text@),
{
    match print(value) {
        Ok(text) => text,
        Err(_) => unreached(),
    }
}

fn quote(text: &str) -> (printed: String)
    ensures
        printed@ == quoted(text@),
        single_line(printed@),
{
    render(&string(text))
}

/// Appends a piece to a line that holds no line break.
fn extend(line: &mut String, piece: &str)
    requires
        single_line(old(line)@),
        single_line(piece@),
    ensures
        final(line)@ == old(line)@ + piece@,
        single_line(final(line)@),
{
    proof {
        lemma_single_line_concat(line@, piece@);
    }
    line.append(piece);
}

impl JsonRpcRequest {
    /// Writes the request as one line, without the line break.
    pub fn to_line(&self) -> (line: String)
        ensures
            line@ == request_line(self.jsonrpc@, self.id, self.method@, document_view(self.params)),
            single_line(line@),
    {
        let version = quote(self.jsonrpc);
        let name = quote(self.method.as_str());
        let id = decimal_string(self.id);
        proof {
            lemma_decimal_single_line(self.id as nat);
            reveal_strlit("{\"jsonrpc\":");
            reveal_strlit(",\"id\":");
            reveal_strlit(",\"method\":");
            reveal_strlit(",\"params\":");
            reveal_strlit("}");
        }
        let mut line = String::from_str("{\"jsonrpc\":");
        extend(&mut line, version.as_str());
        extend(&mut line, ",\"id\":");
        extend(&mut line, id.as_str());
        extend(&mut line, ",\"method\":");
        extend(&mut line, name.as_str());
        match &self.params {
            None => {},
            Some(p) => {
                let body = render(p);
                extend(&mut line, ",\"params\":");
                extend(&mut line, body.as_str());
            },
        }
        extend(&mut line, "}");
        line
    }
}

/// Writes a notification as one line, without the line break.
pub fn encode_notification(method: &str, params: &Option<serde_json::Value>) -> (line: String)
    ensures
        line@ == notification_line(method@, document_view(*params)),
        single_line(line@),
{
    let body = match params {
        Some(p) => render(p),
        None => render(&null()),
    };
    let name = quote(method);
    proof {
        reveal_strlit("{\"jsonrpc\":\"2.0\",\"method\":");
        reveal_strlit(",\"params\":");
        reveal_strlit("}");
    }
    let mut line = String::from_str("{\"jsonrpc\":\"2.0\",\"method\":");
    extend(&mut line, name.as_str());
    extend(&mut line, ",\"params\":");
    extend(&mut line, body.as_str());
    extend(&mut line, "}");
    line
}

/// Writes the response that grants the permission request `id` for good.
pub fn encode_permission_grant(id: u64) -> (line: String)
    ensures
        line@ == permission_line(id),
        single_line(line@),
{
    let number = decimal_string(id);
    proof {
        lemma_decimal_single_line(id as nat);
        reveal_strlit("{\"jsonrpc\":\"2.0\",\"id\":");
        reveal_strlit(
            ",\"result\":{\"outcome\":{\"outcome\":\"selected\",\"optionId\":\"allow_always\"}}}",
        );
    }
    let mut line = String::from_str("{\"jsonrpc\":\"2.0\",\"id\":");
    extend(&mut line, number.as_str());
    extend(
        &mut line,
        ",\"result\":{\"outcome\":{\"outcome\":\"selected\",\"optionId\":\"allow_always\"}}}",
    );
    line
}

/// One inbound line, by what it is.
#[derive(Debug)]
#[allow(inconsistent_fields)]
pub enum Inbound {
    /// Nothing but whitespace.
    Blank,
    /// Not one JSON document, or not an envelope.
    Malformed,
    /// The answer to the request `id`.
    Response { id: u64, outcome: Result<serde_json::Value, JsonRpcError> },
    /// A notification of the other side, or a request where it has an id.
    Call { id: Option<u64>, method: String, params: Option<serde_json::Value> },
    /// An envelope that is neither of the two.
    Unroutable,
}

/// The content of the outcome of a request.
pub open spec fn outcome_view(outcome: Result<serde_json::Value, JsonRpcError>) -> Result<
    JsonView,
    JsonRpcErrorView,
> {
    match outcome {
        Ok(value) => Ok(json_view(value)),
        Err(error) => Err(error@),
    }
}

/// The content of an [`Inbound`].
#[allow(inconsistent_fields)]
pub enum InboundView {
    Blank,
    Malformed,
    Response { id: u64, outcome: Result<JsonView, JsonRpcErrorView> },
    Call { id: Option<u64>, method: Seq<char>, params: Option<JsonView> },
    Unroutable,
}

impl View for Inbound {
    type V = InboundView;

    open spec fn view(&self) -> InboundView {
        match self {
            Inbound::Blank => InboundView::Blank,
            Inbound::Malformed => InboundView::Malformed,
            Inbound::Response { id, outcome } => InboundView::Response {
                id: *id,
                outcome: outcome_view(*outcome),
            },
            Inbound::Call { id, method, params } => InboundView::Call {
                id: *id,
                method: method@,
                params: document_view(*params),
            },
            Inbound::Unroutable => InboundView::Unroutable,
        }
    }
}

impl InboundView {
    /// What an envelope is. An envelope with an id and a result or an error
    /// is a response, whatever else it holds and whatever the result is; the
    /// error decides where both are there. Any other envelope with a method
    /// is a call.
    pub open spec fn of_envelope(envelope: JsonRpcResponseView) -> InboundView {
        if envelope.id is Some && (envelope.result is Some || envelope.error is Some) {
            InboundView::Response {
                id: envelope.id.unwrap(),
                outcome: match envelope.error {
                    Some(error) => Err(error),
                    None => Ok(envelope.result.unwrap()),
                },
            }
        } else if envelope.method is Some {
            InboundView::Call {
                id: envelope.id,
                method: envelope.method.unwrap(),
                params: envelope.params,
            }
        } else {
            InboundView::Unroutable
        }
    }

    /// What a line is.
    pub open spec fn of_line(line: Seq<char>) -> InboundView {
        if trimmed(line).len() == 0 {
            InboundView::Blank
        } else {
            match json_parse(line) {
                None => InboundView::Malformed,
                Some(doc) => match JsonRpcResponseView::of(doc) {
                    None => InboundView::Malformed,
                    Some(envelope) => InboundView::of_envelope(envelope),
                },
            }
        }
    }
}

/// Tells what an envelope is.
pub fn classify(envelope: JsonRpcResponse) -> (inbound: Inbound)
    ensures
        inbound@ == InboundView::of_envelope(envelope@),
{
    let JsonRpcResponse { id, result, error, method, params } = envelope;
    match id {
        Some(id) => {
            if let Some(error) = error {
                return Inbound::Response { id, outcome: Err(error) };
            }
            if let Some(result) = result {
                return Inbound::Response { id, outcome: Ok(result) };
            }
        },
        None => {},
    }
    match method {
        Some(method) => Inbound::Call { id, method, params },
        None => Inbound::Unroutable,
    }
}

/// Decodes one inbound line. An empty line is blank.
pub fn decode_line(line: &str) -> (inbound: Inbound)
    ensures
        inbound@ == InboundView::of_line(line@),
        line@.len() == 0 ==> inbound@ is Blank,
{
    if is_blank(line) {
        return Inbound::Blank;
    }
    let doc = match parse(line) {
        Ok(doc) => doc,
        Err(_) => return Inbound::Malformed,
    };
    match JsonRpcResponse::from_value(&doc) {
        Some(envelope) => classify(envelope),
        None => Inbound::Malformed,
    }
}

} // verus!
