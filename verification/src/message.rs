//! Requests, error objects and the responses built from them.
//!
//! Responses are put together by `jsonrpc_lite` and turned into documents
//! by `serde_json`. The functions marked `external_body` make those calls;
//! the verifier believes what they state and does not prove it.

use crate::json::{
    integer_at, integer_member, json_of, member, member_at, text_at, text_member, Json,
};
use jsonrpc_lite::JsonRpc;
use serde_json::Value;
use vstd::prelude::*;

verus! {

/// `jsonrpc_lite::JsonRpc`, taken as it is: contracts speak of the
/// document that it serialises to, by [`rpc_json`].
#[verifier::external_type_specification]
#[verifier::external_body]
pub struct ExJsonRpc(jsonrpc_lite::JsonRpc);

/// Invalid JSON was received, or a document that is neither an object nor
/// an array.
pub const PARSE_ERROR: i64 = -32700;

/// The document is not a request object.
pub const INVALID_REQUEST: i64 = -32600;

/// No handler is registered under the method's name.
pub const METHOD_NOT_FOUND: i64 = -32601;

/// The parameters are not what the handler takes.
pub const INVALID_PARAMS: i64 = -32602;

/// The method table was gone when a batch element came to be routed.
pub const ROUTE_ERROR: i64 = -32500;

/// The error member of a response.
#[derive(Debug, Clone, PartialEq)]
pub struct ErrorObject {
    pub code: i64,
    pub message: String,
    pub data: Option<Value>,
}

/// What an [`ErrorObject`] holds.
pub struct ErrorView {
    pub code: int,
    pub message: Seq<char>,
    pub data: Option<Json>,
}

impl View for ErrorObject {
    type V = ErrorView;

    open spec fn view(&self) -> ErrorView {
        ErrorView {
            code: self.code as int,
            message: self.message@,
            data: match self.data {
                Some(d) => Some(json_of(d)),
                None => None,
            },
        }
    }
}

/// One call of a method. The `id` is required: a request without one is
/// not answered as a notification but refused as malformed.
#[derive(Debug, Clone, PartialEq)]
pub struct Request {
    pub jsonrpc: String,
    pub method: String,
    pub params: Value,
    pub id: i64,
}

/// What a [`Request`] holds.
pub struct RequestView {
    pub jsonrpc: Seq<char>,
    pub method: Seq<char>,
    pub params: Json,
    pub id: int,
}

impl View for Request {
    type V = RequestView;

    open spec fn view(&self) -> RequestView {
        RequestView {
            jsonrpc: self.jsonrpc@,
            method: self.method@,
            params: json_of(self.params),
            id: self.id as int,
        }
    }
}

/// How the work that a handler started has ended.
#[derive(Debug, Clone, PartialEq)]
pub enum Outcome {
    /// The parameters could not be read as what the handler takes; the
    /// handler's own function was not run.
    InvalidParams,
    /// The handler's result, as a document.
    Success(Value),
    /// The handler's error.
    Failure(ErrorObject),
}

/// What an [`Outcome`] holds.
pub enum OutcomeView {
    InvalidParams,
    Success(Json),
    Failure(ErrorView),
}

impl View for Outcome {
    type V = OutcomeView;

    open spec fn view(&self) -> OutcomeView {
        match *self {
            Outcome::InvalidParams => OutcomeView::InvalidParams,
            Outcome::Success(v) => OutcomeView::Success(json_of(v)),
            Outcome::Failure(e) => OutcomeView::Failure(e@),
        }
    }
}

/// The error for a payload that cannot be read.
pub open spec fn parse_error() -> ErrorView {
    ErrorView { code: PARSE_ERROR as int, message: "Parse error"@, data: None }
}

/// The error for a document that is no request.
pub open spec fn invalid_request() -> ErrorView {
    ErrorView { code: INVALID_REQUEST as int, message: "Invalid request"@, data: None }
}

/// The error for a request whose method is not registered.
pub open spec fn method_not_found() -> ErrorView {
    ErrorView { code: METHOD_NOT_FOUND as int, message: "Method not found"@, data: None }
}

/// The error for a request whose parameters the handler does not take.
pub open spec fn invalid_params() -> ErrorView {
    ErrorView { code: INVALID_PARAMS as int, message: "Invalid params"@, data: None }
}

/// The error for a batch element that finds the method table gone.
pub open spec fn route_error() -> ErrorView {
    ErrorView { code: ROUTE_ERROR as int, message: "Server Internal Route error"@, data: None }
}

/// The request that a document is: an object with the string members
/// `jsonrpc` and `method`, a member `params` of any kind and an integer
/// member `id` that fits `i64`. Other members are ignored. Any other
/// document is no request.
pub open spec fn request_of(doc: Json) -> Option<RequestView> {
    match (
        text_at(doc, "jsonrpc"@),
        text_at(doc, "method"@),
        member_at(doc, "params"@),
        integer_at(doc, "id"@),
    ) {
        (Some(jsonrpc), Some(method), Some(params), Some(id)) => Some(
            RequestView { jsonrpc, method, params, id },
        ),
        _ => None,
    }
}

/// The id that can be read off a document, request or not.
pub open spec fn recovered_id(doc: Json) -> Option<int> {
    integer_at(doc, "id"@)
}

/// An id, or the lack of one, as a mathematical integer.
pub open spec fn id_view(id: Option<i64>) -> Option<int> {
    match id {
        Some(n) => Some(n as int),
        None => None,
    }
}

/// The `id` member of a response: the number, or `null` where there is
/// none to give.
pub open spec fn id_json(id: Option<int>) -> Json {
    match id {
        Some(n) => Json::Integer(n),
        None => Json::Null,
    }
}

/// The document of an error object: `code`, `message` and, only where
/// there is one, `data`.
pub open spec fn error_object_json(e: ErrorView) -> Json {
    let members = map!["code"@ => Json::Integer(e.code), "message"@ => Json::Text(e.message)];
    match e.data {
        Some(d) => Json::Object(members.insert("data"@, d)),
        None => Json::Object(members),
    }
}

/// The response that carries a result.
pub open spec fn success_json(id: int, result: Json) -> Json {
    Json::Object(
        map!["jsonrpc"@ => Json::Text("2.0"@), "result"@ => result, "id"@ => Json::Integer(id)],
    )
}

/// The response that carries an error.
pub open spec fn error_json(id: Option<int>, e: ErrorView) -> Json {
    Json::Object(
        map!["jsonrpc"@ => Json::Text("2.0"@), "error"@ => error_object_json(e), "id"@ => id_json(id)],
    )
}

/// The response to the request `id` whose handler ended with `outcome`.
pub open spec fn outcome_json(id: int, outcome: OutcomeView) -> Json {
    match outcome {
        OutcomeView::InvalidParams => error_json(Some(id), invalid_params()),
        OutcomeView::Success(result) => success_json(id, result),
        OutcomeView::Failure(e) => error_json(Some(id), e),
    }
}

/// The document that `serde_json::to_value` gives for a `jsonrpc_lite`
/// message.
pub uninterp spec fn rpc_json(message: JsonRpc) -> Json;

/// `jsonrpc_lite::Error::parse_error`.
#[verifier::external_body]
fn rpc_parse_error() -> (r: ErrorObject)
    ensures
        r@ == parse_error(),
{
    let e = jsonrpc_lite::Error::parse_error();
    ErrorObject { code: e.code, message: e.message, data: e.data }
}

/// `jsonrpc_lite::Error::invalid_request`.
#[verifier::external_body]
fn rpc_invalid_request() -> (r: ErrorObject)
    ensures
        r@ == invalid_request(),
{
    let e = jsonrpc_lite::Error::invalid_request();
    ErrorObject { code: e.code, message: e.message, data: e.data }
}

/// `jsonrpc_lite::Error::method_not_found`.
#[verifier::external_body]
fn rpc_method_not_found() -> (r: ErrorObject)
    ensures
        r@ == method_not_found(),
{
    let e = jsonrpc_lite::Error::method_not_found();
    ErrorObject { code: e.code, message: e.message, data: e.data }
}

/// `jsonrpc_lite::Error::invalid_params`.
#[verifier::external_body]
fn rpc_invalid_params() -> (r: ErrorObject)
    ensures
        r@ == invalid_params(),
{
    let e = jsonrpc_lite::Error::invalid_params();
    ErrorObject { code: e.code, message: e.message, data: e.data }
}

/// `JsonRpc::success`: the message serialises as an object of the members
/// `jsonrpc`, which is `"2.0"`, `result`, a copy of the document given,
/// and `id`.
#[verifier::external_body]
fn rpc_success(id: i64, result: &Value) -> (r: JsonRpc)
    ensures
        rpc_json(r) == success_json(id as int, json_of(*result)),
{
    JsonRpc::success(id, result)
}

/// `JsonRpc::error`: the message serialises as an object of the members
/// `jsonrpc`, which is `"2.0"`, `error` and `id`, which is `null` for
/// `Id::None`. The error serialises as `code`, `message` and, unless it
/// is `None`, `data`.
#[verifier::external_body]
fn rpc_error(id: Option<i64>, error: ErrorObject) -> (r: JsonRpc)
    ensures
        rpc_json(r) == error_json(id_view(id), error@),
{
    let id = id.map_or(jsonrpc_lite::Id::None(()), jsonrpc_lite::Id::Num);
    let error = jsonrpc_lite::Error { code: error.code, message: error.message, data: error.data };
    JsonRpc::error(id, error)
}

/// `serde_json::to_value` on a message. It cannot fail on one: every
/// member name is a string and a `Value` serialises into itself.
#[verifier::external_body]
fn rpc_value(message: JsonRpc) -> (r: Value)
    ensures
        json_of(r) == rpc_json(message),
{
    serde_json::to_value(message).unwrap_or(Value::Null)
}

/// The error that answers a batch element when the method table is gone.
pub fn server_route_error() -> (r: ErrorObject)
    ensures
        r@ == route_error(),
{
    ErrorObject { code: ROUTE_ERROR, message: "Server Internal Route error".to_owned(), data: None }
}

/// Builds the response that carries `error`.
pub(crate) fn error_reply(id: Option<i64>, error: ErrorObject) -> (r: Value)
    ensures
        json_of(r) == error_json(id_view(id), error@),
{
    rpc_value(rpc_error(id, error))
}

/// The response to a text that is no JSON, or no object and no array.
pub(crate) fn parse_error_reply() -> (r: Value)
    ensures
        json_of(r) == error_json(None, parse_error()),
{
    error_reply(None, rpc_parse_error())
}

/// The response to a document that is no request.
pub(crate) fn invalid_request_reply(id: Option<i64>) -> (r: Value)
    ensures
        json_of(r) == error_json(id_view(id), invalid_request()),
{
    error_reply(id, rpc_invalid_request())
}

/// The response to a request for a method that nobody registered.
pub(crate) fn method_not_found_reply(id: i64) -> (r: Value)
    ensures
        json_of(r) == error_json(Some(id as int), method_not_found()),
{
    error_reply(Some(id), rpc_method_not_found())
}

/// Reads the id off a document, whether or not it is a request.
pub fn recover_id(doc: &Value) -> (r: Option<i64>)
    ensures
        match r {
            Some(n) => recovered_id(json_of(*doc)) == Some(n as int),
            None => recovered_id(json_of(*doc)) is None,
        },
{
    integer_member(doc, "id")
}

/// Reads a document as a request.
pub fn read_request(doc: &Value) -> (r: Option<Request>)
    ensures
        match r {
            Some(request) => request_of(json_of(*doc)) == Some(request@),
            None => request_of(json_of(*doc)) is None,
        },
{
    let jsonrpc = match text_member(doc, "jsonrpc") {
        Some(s) => s,
        None => {
            return None;
        },
    };
    let method = match text_member(doc, "method") {
        Some(s) => s,
        None => {
            return None;
        },
    };
    let params = match member(doc, "params") {
        Some(p) => p.clone(),
        None => {
            return None;
        },
    };
    let id = match integer_member(doc, "id") {
        Some(n) => n,
        None => {
            return None;
        },
    };
    Some(Request { jsonrpc, method, params, id })
}

/// Builds the response to the request `id` from the way its handler
/// ended: the result under `result`, the handler's error under `error`,
/// and the invalid-params error where the parameters were refused.
pub fn settle(id: i64, outcome: Outcome) -> (r: Value)
    ensures
        json_of(r) == outcome_json(id as int, outcome@),
{
    match outcome {
        Outcome::InvalidParams => error_reply(Some(id), rpc_invalid_params()),
        Outcome::Success(result) => rpc_value(rpc_success(id, &result)),
        Outcome::Failure(error) => error_reply(Some(id), error),
    }
}

} // verus!
