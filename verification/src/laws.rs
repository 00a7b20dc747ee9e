//! What holds of every response that the router gives.

use crate::data::DataExtensions;
use crate::json::{json_parse, json_text, member_at, Json};
use crate::message::{
    error_json, error_object_json, id_json, invalid_params, invalid_request, method_not_found,
    outcome_json, parse_error, recovered_id, request_of, route_error, success_json, ErrorView,
    OutcomeView, INVALID_PARAMS, METHOD_NOT_FOUND, PARSE_ERROR, ROUTE_ERROR,
};
use crate::route::{
    batch_replies, finished_text, orphaned, payload_reply, reply_of, step_reply, verdict,
    Dispatch, Route, Verdict,
};
use serde_json::Value;
use vstd::prelude::*;

verus! {

/// A document is one response: an object whose `jsonrpc` is `"2.0"`, with
/// an `id`, and with either a `result` or an `error`, never both and
/// never neither.
pub open spec fn is_response(doc: Json) -> bool {
    &&& doc is Object
    &&& member_at(doc, "jsonrpc"@) == Some(Json::Text("2.0"@))
    &&& member_at(doc, "id"@) is Some
    &&& (member_at(doc, "result"@) is Some) != (member_at(doc, "error"@) is Some)
}

/// The `id` that a response carries.
pub open spec fn response_id(doc: Json) -> Option<Json> {
    member_at(doc, "id"@)
}

/// The `code` of the error that a response carries.
pub open spec fn error_code(doc: Json) -> Option<Json> {
    match member_at(doc, "error"@) {
        Some(error) => member_at(error, "code"@),
        None => None,
    }
}

proof fn lemma_member_names_differ()
    ensures
        "jsonrpc"@ != "result"@,
        "jsonrpc"@ != "error"@,
        "jsonrpc"@ != "id"@,
        "result"@ != "error"@,
        "result"@ != "id"@,
        "error"@ != "id"@,
        "code"@ != "message"@,
        "code"@ != "data"@,
        "message"@ != "data"@,
{
    reveal_strlit("jsonrpc");
    reveal_strlit("result");
    reveal_strlit("error");
    reveal_strlit("id");
    reveal_strlit("code");
    reveal_strlit("message");
    reveal_strlit("data");
    assert("jsonrpc"@.len() == 7 && "message"@.len() == 7);
    assert("result"@.len() == 6);
    assert("error"@.len() == 5);
    assert("code"@.len() == 4 && "data"@.len() == 4);
    assert("id"@.len() == 2);
    assert("code"@[0] != "data"@[0]);
}

proof fn lemma_success_shape(id: int, result: Json)
    ensures
        is_response(success_json(id, result)),
        response_id(success_json(id, result)) == Some(Json::Integer(id)),
        member_at(success_json(id, result), "result"@) == Some(result),
        member_at(success_json(id, result), "error"@) is None,
{
    lemma_member_names_differ();
}

proof fn lemma_error_shape(id: Option<int>, e: ErrorView)
    ensures
        is_response(error_json(id, e)),
        response_id(error_json(id, e)) == Some(id_json(id)),
        member_at(error_json(id, e), "result"@) is None,
        member_at(error_json(id, e), "error"@) == Some(error_object_json(e)),
        error_code(error_json(id, e)) == Some(Json::Integer(e.code)),
{
    lemma_member_names_differ();
}

proof fn lemma_outcome_shape(id: int, outcome: OutcomeView)
    ensures
        is_response(outcome_json(id, outcome)),
        response_id(outcome_json(id, outcome)) == Some(Json::Integer(id)),
{
    match outcome {
        OutcomeView::InvalidParams => lemma_error_shape(Some(id), invalid_params()),
        OutcomeView::Success(result) => lemma_success_shape(id, result),
        OutcomeView::Failure(e) => lemma_error_shape(Some(id), e),
    }
}

/// Whatever the document and however its handler ended, the router's
/// answer is exactly one response: it carries either a result or an
/// error, never both. Where the document is a request, the response
/// carries the request's id.
pub proof fn law_one_response_with_the_request_id(
    methods: Set<Seq<char>>,
    doc: Json,
    outcome: OutcomeView,
)
    ensures
        is_response(reply_of(methods, doc, outcome)),
        request_of(doc) matches Some(request) ==> response_id(reply_of(methods, doc, outcome))
            == Some(Json::Integer(request.id)),
        request_of(doc) is None ==> response_id(reply_of(methods, doc, outcome)) == Some(
            id_json(recovered_id(doc)),
        ),
{
    match verdict(methods, doc) {
        Verdict::Refuse(reply) => {
            match request_of(doc) {
                Some(request) => lemma_error_shape(Some(request.id), method_not_found()),
                None => lemma_error_shape(recovered_id(doc), invalid_request()),
            }
        },
        Verdict::Invoke(request) => lemma_outcome_shape(request.id, outcome),
    }
}

/// Where a handler was called, the response carries what it ended with
/// and nothing else: its result under `result`, or the code, the message
/// and the data of its error under `error`.
pub proof fn law_response_carries_the_outcome(
    methods: Set<Seq<char>>,
    doc: Json,
    outcome: OutcomeView,
)
    requires
        request_of(doc) matches Some(request) && methods.contains(request.method),
    ensures
        outcome matches OutcomeView::Success(result) ==> member_at(
            reply_of(methods, doc, outcome),
            "result"@,
        ) == Some(result) && member_at(reply_of(methods, doc, outcome), "error"@) is None,
        outcome matches OutcomeView::Failure(e) ==> member_at(
            reply_of(methods, doc, outcome),
            "error"@,
        ) == Some(error_object_json(e)) && member_at(reply_of(methods, doc, outcome), "result"@)
            is None && error_code(reply_of(methods, doc, outcome)) == Some(Json::Integer(e.code)),
{
    let id = request_of(doc)->0.id;
    match outcome {
        OutcomeView::InvalidParams => {},
        OutcomeView::Success(result) => lemma_success_shape(id, result),
        OutcomeView::Failure(e) => lemma_error_shape(Some(id), e),
    }
}

/// A request for a method that is not registered is answered with the
/// error -32601 under the request's id, whatever `outcome` is: no handler
/// has a part in it.
pub proof fn law_unknown_method(methods: Set<Seq<char>>, doc: Json, outcome: OutcomeView)
    requires
        request_of(doc) matches Some(request) && !methods.contains(request.method),
    ensures
        reply_of(methods, doc, outcome) == error_json(
            Some(request_of(doc)->0.id),
            method_not_found(),
        ),
        error_code(reply_of(methods, doc, outcome)) == Some(Json::Integer(METHOD_NOT_FOUND as int)),
        METHOD_NOT_FOUND == -32601,
        response_id(reply_of(methods, doc, outcome)) == Some(
            Json::Integer(request_of(doc)->0.id),
        ),
{
    lemma_error_shape(Some(request_of(doc)->0.id), method_not_found());
}

/// A request whose parameters the handler's adapter refused is answered
/// with the error -32602 under the request's id.
pub proof fn law_invalid_params(methods: Set<Seq<char>>, doc: Json)
    requires
        request_of(doc) matches Some(request) && methods.contains(request.method),
    ensures
        reply_of(methods, doc, OutcomeView::InvalidParams) == error_json(
            Some(request_of(doc)->0.id),
            invalid_params(),
        ),
        error_code(reply_of(methods, doc, OutcomeView::InvalidParams)) == Some(
            Json::Integer(INVALID_PARAMS as int),
        ),
        INVALID_PARAMS == -32602,
        response_id(reply_of(methods, doc, OutcomeView::InvalidParams)) == Some(
            Json::Integer(request_of(doc)->0.id),
        ),
{
    lemma_error_shape(Some(request_of(doc)->0.id), invalid_params());
}

/// A batch of N elements is answered with N responses. The response at
/// each place is the one that the element at that place would get if it
/// were sent alone: what happens to its siblings, a malformed one, an
/// unknown method or a failing handler, leaves it as it is. It carries
/// the id of its element where that is a request.
pub proof fn law_batch_answers_each_element(
    methods: Set<Seq<char>>,
    items: Seq<Json>,
    outcomes: Seq<OutcomeView>,
)
    ensures
        batch_replies(methods, items, outcomes).len() == items.len(),
        forall|i: int|
            0 <= i < items.len() ==> #[trigger] batch_replies(methods, items, outcomes)[i]
                == reply_of(methods, items[i], outcomes[i]),
        forall|i: int|
            0 <= i < items.len() ==> is_response(
                #[trigger] batch_replies(methods, items, outcomes)[i],
            ),
        forall|i: int|
            0 <= i < items.len() && request_of(items[i]) is Some ==> response_id(
                #[trigger] batch_replies(methods, items, outcomes)[i],
            ) == Some(Json::Integer(request_of(items[i])->0.id)),
{
    assert forall|i: int| 0 <= i < items.len() implies is_response(
        #[trigger] batch_replies(methods, items, outcomes)[i],
    ) && (request_of(items[i]) is Some ==> response_id(
        batch_replies(methods, items, outcomes)[i],
    ) == Some(Json::Integer(request_of(items[i])->0.id))) by {
        law_one_response_with_the_request_id(methods, items[i], outcomes[i]);
    }
}

/// A batch element that finds the method table gone is still answered
/// with one response: the route error -32500, under the id that can be
/// read off the element.
pub proof fn law_orphaned_element_gets_the_route_error(doc: Json)
    ensures
        is_response(orphaned(doc)),
        error_code(orphaned(doc)) == Some(Json::Integer(ROUTE_ERROR as int)),
        ROUTE_ERROR == -32500,
        response_id(orphaned(doc)) == Some(id_json(recovered_id(doc))),
        request_of(doc) matches Some(request) ==> response_id(orphaned(doc)) == Some(
            Json::Integer(request.id),
        ),
{
    lemma_error_shape(recovered_id(doc), route_error());
}

/// A payload that is no JSON, or that is neither an object nor an array,
/// is answered with a single response, the parse error -32700 without an
/// id, and never with an array.
pub proof fn law_parse_error_is_one_response(
    methods: Set<Seq<char>>,
    text: Seq<char>,
    outcomes: Seq<OutcomeView>,
)
    requires
        !(json_parse(text) matches Some(doc) && (doc is Object || doc is Array)),
    ensures
        payload_reply(methods, text, outcomes) == error_json(None, parse_error()),
        is_response(payload_reply(methods, text, outcomes)),
        !(payload_reply(methods, text, outcomes) is Array),
        error_code(payload_reply(methods, text, outcomes)) == Some(
            Json::Integer(PARSE_ERROR as int),
        ),
        PARSE_ERROR == -32700,
        response_id(payload_reply(methods, text, outcomes)) == Some(Json::Null),
{
    lemma_error_shape(None, parse_error());
}

/// What the router hands out for a payload comes, once its tasks have
/// ended, to the text of the payload's response: a step that answers a
/// document comes to that document's response, and the whole dispatch to
/// the response of the whole payload.
pub proof fn law_dispatch_comes_to_the_payload_reply<F, H: Fn(&DataExtensions, Value) -> F>(
    route: Route<H>,
    text: Seq<char>,
    dispatch: Dispatch<F>,
    outcomes: Seq<OutcomeView>,
)
    requires
        route.dispatches(text, dispatch),
    ensures
        finished_text(dispatch, outcomes) == json_text(
            payload_reply(route.methods(), text, outcomes),
        ),
{
    match json_parse(text) {
        Some(Json::Array(items)) => {
            let steps = dispatch->Batch_0;
            let left = Seq::new(steps@.len(), |i: int| step_reply(steps@[i], outcomes[i]));
            let right = batch_replies(route.methods(), items, outcomes);
            assert forall|i: int| 0 <= i < items.len() implies left[i] == right[i] by {
                assert(route.answers(items[i], steps@[i]));
            }
            assert(left =~= right);
        },
        _ => {},
    }
}

} // verus!
