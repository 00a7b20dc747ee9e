//! The method table and the routing of single requests and batches.
//!
//! Routing never waits. A handler is a function from the shared state and
//! a request's parameters to a task of type `F`, most often a future; the
//! router starts the task and hands it out together with the request's id.
//! Whoever runs the task gives the router its [`Outcome`] back and gets the
//! response.

pub use crate::message::Request;

use crate::data::{one_put_in, registered, Data, DataExtensions};
use crate::json::{array_of, into_items, json_of, json_parse, json_text, jsons, parse, print, Json};
use crate::message::{
    error_json, error_reply, invalid_request, invalid_request_reply, method_not_found,
    method_not_found_reply, outcome_json, parse_error, parse_error_reply, read_request,
    recover_id, recovered_id, request_of, route_error, server_route_error, settle, Outcome,
    OutcomeView, RequestView,
};
use serde_json::Value;
use std::any::TypeId;
use vstd::hash_map::StringHashMap;
use vstd::prelude::*;

verus! {

/// The task that a handler started for the request `id`.
pub struct Pending<F> {
    pub id: i64,
    pub task: F,
}

/// One element of a batch after routing: its response, or the task whose
/// outcome the response waits for.
pub enum Step<F> {
    Ready(Value),
    Wait(Pending<F>),
}

/// What is left to do for one payload.
pub enum Dispatch<F> {
    /// Nothing: this text is the response.
    Done(String),
    /// One task to run; [`finish_single`] gives the response.
    Single(Pending<F>),
    /// One step for each element of the batch, in the batch's order;
    /// [`finish_batch`] gives the response.
    Batch(Vec<Step<F>>),
}

/// What routing one document calls for.
pub enum Verdict {
    /// This response, and no handler.
    Refuse(Json),
    /// The handler of this request's method.
    Invoke(RequestView),
}

/// The verdict on a document where the methods `methods` are registered:
/// a document that is no request is refused as invalid, under the id that
/// can be read off it; a request for a method that is not registered is
/// refused under its id; any other request goes to its handler.
pub open spec fn verdict(methods: Set<Seq<char>>, doc: Json) -> Verdict {
    match request_of(doc) {
        None => Verdict::Refuse(error_json(recovered_id(doc), invalid_request())),
        Some(request) => if methods.contains(request.method) {
            Verdict::Invoke(request)
        } else {
            Verdict::Refuse(error_json(Some(request.id), method_not_found()))
        },
    }
}

/// The response to a batch element that came to be routed when the method
/// table was gone.
pub open spec fn orphaned(doc: Json) -> Json {
    error_json(recovered_id(doc), route_error())
}

/// The response to a document: the one its verdict refuses it with, or
/// the one built from the way its handler ended. Where no handler is
/// called for, `outcome` plays no part.
pub open spec fn reply_of(methods: Set<Seq<char>>, doc: Json, outcome: OutcomeView) -> Json {
    match verdict(methods, doc) {
        Verdict::Refuse(reply) => reply,
        Verdict::Invoke(request) => outcome_json(request.id, outcome),
    }
}

/// The responses to the elements of a batch, in the batch's order, where
/// `outcomes[i]` is how the handler of element `i` ended.
pub open spec fn batch_replies(
    methods: Set<Seq<char>>,
    items: Seq<Json>,
    outcomes: Seq<OutcomeView>,
) -> Seq<Json> {
    Seq::new(items.len(), |i: int| reply_of(methods, items[i], outcomes[i]))
}

/// The response to a payload: the parse error for a text that is no
/// JSON, or neither an object nor an array; the response to the request
/// for an object; the array of the elements' responses for an array.
pub open spec fn payload_reply(
    methods: Set<Seq<char>>,
    text: Seq<char>,
    outcomes: Seq<OutcomeView>,
) -> Json {
    match json_parse(text) {
        Some(Json::Object(members)) => reply_of(methods, Json::Object(members), outcomes[0]),
        Some(Json::Array(items)) => Json::Array(batch_replies(methods, items, outcomes)),
        _ => error_json(None, parse_error()),
    }
}

/// The response that a step comes to when its task, if it has one, ends
/// with `outcome`.
pub open spec fn step_reply<F>(step: Step<F>, outcome: OutcomeView) -> Json {
    match step {
        Step::Ready(v) => json_of(v),
        Step::Wait(p) => outcome_json(p.id as int, outcome),
    }
}

/// The text that a dispatch comes to when its tasks end with `outcomes`:
/// what [`finish_single`] gives for a single request, and what
/// [`finish_batch`] gives for the responses of a batch's steps, taken in
/// the batch's order.
pub open spec fn finished_text<F>(dispatch: Dispatch<F>, outcomes: Seq<OutcomeView>) -> Seq<char> {
    match dispatch {
        Dispatch::Done(t) => t@,
        Dispatch::Single(p) => json_text(outcome_json(p.id as int, outcomes[0])),
        Dispatch::Batch(steps) => json_text(
            Json::Array(Seq::new(steps@.len(), |i: int| step_reply(steps@[i], outcomes[i]))),
        ),
    }
}

/// The method table: handlers by method name, and the shared state that
/// they are handed.
#[verifier::reject_recursive_types(H)]
pub struct Route<H> {
    map: StringHashMap<H>,
    extensions: DataExtensions,
}

impl<F, H: Fn(&DataExtensions, Value) -> F> Route<H> {
    /// The handlers by method name.
    pub closed spec fn handlers(&self) -> Map<Seq<char>, H> {
        self.map@
    }

    /// The shared state.
    pub closed spec fn state(&self) -> DataExtensions {
        self.extensions
    }

    /// The names of the registered methods.
    pub open spec fn methods(&self) -> Set<Seq<char>> {
        self.handlers().dom()
    }

    /// Every registered handler may be called with any state and any
    /// parameters.
    pub open spec fn wf(&self) -> bool {
        forall|name: Seq<char>, state: &DataExtensions, params: Value|
            self.handlers().contains_key(name) ==> #[trigger] call_requires(
                self.handlers()[name],
                (state, params),
            )
    }

    /// `task` is what the handler of `request`'s method returned for the
    /// table's state and the request's parameters.
    pub open spec fn started(&self, request: RequestView, task: F) -> bool {
        exists|params: Value|
            json_of(params) == request.params && #[trigger] call_ensures(
                self.handlers()[request.method],
                (&self.state(), params),
                task,
            )
    }

    /// A step answers the document `doc`.
    pub open spec fn answers(&self, doc: Json, step: Step<F>) -> bool {
        match verdict(self.methods(), doc) {
            Verdict::Refuse(reply) => step matches Step::Ready(v) && json_of(v) == reply,
            Verdict::Invoke(request) => step matches Step::Wait(p) && p.id == request.id
                && self.started(request, p.task),
        }
    }

    /// What is left to do for the payload `text` is `dispatch`: a text
    /// that is no JSON, or neither an object nor an array, has the
    /// parse-error response; an object has what its verdict calls for; an
    /// array has one step for each element, in order.
    pub open spec fn dispatches(&self, text: Seq<char>, dispatch: Dispatch<F>) -> bool {
        match json_parse(text) {
            Some(Json::Object(members)) => match verdict(self.methods(), Json::Object(members)) {
                Verdict::Refuse(reply) => dispatch matches Dispatch::Done(t) && t@ == json_text(
                    reply,
                ),
                Verdict::Invoke(request) => dispatch matches Dispatch::Single(p) && p.id
                    == request.id && self.started(request, p.task),
            },
            Some(Json::Array(items)) => dispatch matches Dispatch::Batch(steps) && steps@.len()
                == items.len() && forall|i: int|
                0 <= i < items.len() ==> self.answers(items[i], #[trigger] steps@[i]),
            _ => dispatch matches Dispatch::Done(t) && t@ == json_text(
                error_json(None, parse_error()),
            ),
        }
    }

    /// A table without methods and without state.
    pub fn new() -> (r: Self)
        ensures
            r.wf(),
            r.handlers() == Map::<Seq<char>, H>::empty(),
            registered(r.state()) == Set::<TypeId>::empty(),
    {
        Route { map: StringHashMap::new(), extensions: DataExtensions::default() }
    }

    /// Registers `handle` as the method `key`. A handler registered under
    /// that name before is replaced: the last registration counts.
    pub fn to(self, key: String, handle: H) -> (r: Self)
        requires
            self.wf(),
            forall|state: &DataExtensions, params: Value| call_requires(handle, (state, params)),
        ensures
            r.wf(),
            r.handlers() == self.handlers().insert(key@, handle),
            r.state() == self.state(),
    {
        let ghost name_given = key@;
        let mut route = self;
        route.map.insert(key, handle);
        proof {
            assert forall|name: Seq<char>, state: &DataExtensions, params: Value|
                route.handlers().contains_key(name) implies #[trigger] call_requires(
                route.handlers()[name],
                (state, params),
            ) by {
                if name != name_given {
                    assert(self.handlers().contains_key(name));
                }
            }
        }
        route
    }

    /// Puts `d` into the shared state, behind a [`Data`] handle. The
    /// methods stay as they are.
    pub fn data<D: Send + Sync + 'static>(self, d: D) -> (r: Self)
        requires
            self.wf(),
        ensures
            r.wf(),
            r.handlers() == self.handlers(),
            one_put_in(self.state(), r.state()),
    {
        let mut route = self;
        route.extensions.insert(Data::new(d));
        assert(route.handlers() == self.handlers());
        route
    }

    /// Looks a method up by name.
    pub fn find_route(&self, method: &str) -> (r: Result<&H, ()>)
        ensures
            match r {
                Ok(handle) => self.methods().contains(method@) && *handle == self.handlers()[method@],
                Err(_) => !self.methods().contains(method@),
            },
    {
        match self.map.get(method) {
            Some(handle) => Ok(handle),
            None => Err(()),
        }
    }

    /// Routes one request: the task that its method's handler started
    /// for it, under the request's id, or the response that says that no
    /// such method is registered.
    pub fn dispatch_one(&self, request: Request) -> (r: Result<Pending<F>, Value>)
        requires
            self.wf(),
        ensures
            match r {
                Ok(p) => self.methods().contains(request@.method) && p.id == request.id
                    && self.started(request@, p.task),
                Err(v) => !self.methods().contains(request@.method) && json_of(v) == error_json(
                    Some(request.id as int),
                    method_not_found(),
                ),
            },
    {
        match self.find_route(request.method.as_str()) {
            Ok(handle) => {
                let id = request.id;
                let task = handle(&self.extensions, request.params);
                Ok(Pending { id, task })
            },
            Err(_) => Err(method_not_found_reply(request.id)),
        }
    }

    /// Routes one document: a request goes to [`Route::dispatch_one`];
    /// any other document is refused as no request, under the id that
    /// can be read off it.
    pub fn route_once(&self, req: Value) -> (r: Result<Pending<F>, Value>)
        requires
            self.wf(),
        ensures
            match verdict(self.methods(), json_of(req)) {
                Verdict::Refuse(reply) => r matches Err(v) && json_of(v) == reply,
                Verdict::Invoke(request) => r matches Ok(p) && p.id == request.id && self.started(
                    request,
                    p.task,
                ),
            },
    {
        match read_request(&req) {
            Some(request) => self.dispatch_one(request),
            None => Err(invalid_request_reply(recover_id(&req))),
        }
    }
}

/// Routes one element of a batch. The method table is handed in as it is
/// found when the element's turn comes: where it is gone, the element is
/// answered with the route error, under the id that can be read off it,
/// and its siblings are not touched.
pub fn batch_step<F, H: Fn(&DataExtensions, Value) -> F>(server: Option<&Route<H>>, each: Value) -> (r:
    Step<F>)
    requires
        server matches Some(route) ==> route.wf(),
    ensures
        match server {
            Some(route) => route.answers(json_of(each), r),
            None => r matches Step::Ready(v) && json_of(v) == orphaned(json_of(each)),
        },
{
    match server {
        Some(route) => match route.route_once(each) {
            Ok(pending) => Step::Wait(pending),
            Err(reply) => Step::Ready(reply),
        },
        None => {
            let id = recover_id(&each);
            Step::Ready(error_reply(id, server_route_error()))
        },
    }
}

/// Reads one frame's text as a payload and routes it: a single request
/// to its handler, every element of a batch on its own. No task is run
/// here; see [`Dispatch`] for what the caller does next.
pub fn route_jsonrpc<F, H: Fn(&DataExtensions, Value) -> F>(server: &Route<H>, req_str: &str) -> (r:
    Dispatch<F>)
    requires
        server.wf(),
    ensures
        server.dispatches(req_str@, r),
{
    let req = match parse(req_str) {
        Some(req) => req,
        None => {
            return Dispatch::Done(print(&parse_error_reply()));
        },
    };
    match into_items(req) {
        Ok(items) => {
            let ghost elements = items@;
            let mut steps: Vec<Step<F>> = Vec::new();
            for each in it: items.into_iter()
                invariant
                    server.wf(),
                    it.seq() == elements,
                    steps@.len() == it.index(),
                    forall|i: int|
                        0 <= i < steps@.len() ==> server.answers(
                            json_of(elements[i]),
                            #[trigger] steps@[i],
                        ),
            {
                let step = batch_step(Some(server), each);
                steps.push(step);
            }
            Dispatch::Batch(steps)
        },
        Err(other) => {
            if other.is_object() {
                match server.route_once(other) {
                    Ok(pending) => Dispatch::Single(pending),
                    Err(reply) => Dispatch::Done(print(&reply)),
                }
            } else {
                Dispatch::Done(print(&parse_error_reply()))
            }
        },
    }
}

/// The response to a single request whose task ended with `outcome`.
pub fn finish_single(id: i64, outcome: Outcome) -> (r: String)
    ensures
        r@ == json_text(outcome_json(id as int, outcome@)),
{
    print(&settle(id, outcome))
}

/// The response to a batch: the array of its elements' responses, in the
/// order in which they are handed in.
pub fn finish_batch(outputs: Vec<Value>) -> (r: String)
    ensures
        r@ == json_text(Json::Array(jsons(outputs@))),
{
    print(&array_of(outputs))
}

} // verus!
