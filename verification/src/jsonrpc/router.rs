//! Which requests reach their handlers, and what the others are answered.

use super::error::{not_initialized_error, outcome, Error, ErrorCode, ErrorView, Result};
use super::message::{refusal, refuse, reply, Id, Request, Response, ResponseView};
use crate::json::{json_text, to_text};
use crate::state::State;
use crate::text::same_text;
use serde_json::Value;
use std::future::Future;
use vstd::hash_map::StringHashMap;
use vstd::prelude::*;

verus! {

/// A handler of requests: something that can be invoked on the server, with the
/// parameters of the request, for a future response.
pub trait Method<'a, S, P, R> {
    /// The response, as soon as it is there.
    type ResponseFuture: Future<Output = R> + Send;

    /// Whether the handler can be invoked with these arguments.
    spec fn accepts(&self, server: &'a S, params: P) -> bool;

    /// Whether the handler can give `response` for these arguments.
    spec fn gives(&self, server: &'a S, params: P, response: Self::ResponseFuture) -> bool;

    /// Invokes the handler.
    fn invoke(&self, server: &'a S, params: P) -> (response: Self::ResponseFuture)
        requires
            self.accepts(server, params),
        ensures
            self.gives(server, params, response),
    ;
}

/// A function of the server alone handles the requests without parameters.
impl<'a, F, S, R, Fut> Method<'a, S, (), R> for F
where
    F: Fn(&'a S) -> Fut,
    S: 'a,
    Fut: Future<Output = R> + Send + 'a,
{
    type ResponseFuture = Fut;

    open spec fn accepts(&self, server: &'a S, params: ()) -> bool {
        call_requires(*self, (server,))
    }

    open spec fn gives(&self, server: &'a S, params: (), response: Fut) -> bool {
        call_ensures(*self, (server,), response)
    }

    fn invoke(&self, server: &'a S, _params: ()) -> (response: Fut) {
        self(server)
    }
}

/// A function of the server and one value handles the requests whose parameters
/// are read as that value.
impl<'a, F, S, P, R, Fut> Method<'a, S, (P,), R> for F
where
    F: Fn(&'a S, P) -> Fut,
    S: 'a,
    Fut: Future<Output = R> + Send + 'a,
{
    type ResponseFuture = Fut;

    open spec fn accepts(&self, server: &'a S, params: (P,)) -> bool {
        call_requires(*self, (server, params.0))
    }

    open spec fn gives(&self, server: &'a S, params: (P,), response: Fut) -> bool {
        call_ensures(*self, (server, params.0), response)
    }

    fn invoke(&self, server: &'a S, params: (P,)) -> (response: Fut) {
        self(server, params.0)
    }
}

/// A type that the `params` field of a request can be read as.
///
/// `V` is what was found in that field: the value itself, or what came of reading
/// it as the type that a handler asks for, with a message where that failed.
pub trait FromParams<V>: Send + Sized {
    /// What the field is read as.
    spec fn decoded(params: Option<V>) -> std::result::Result<Self, ErrorView>;

    /// Reads the field.
    fn from_params(params: Option<V>) -> (r: Result<Self>)
        ensures
            outcome(r) == Self::decoded(params),
    ;
}

/// A method without parameters takes no `params` field.
impl FromParams<Value> for () {
    open spec fn decoded(params: Option<Value>) -> std::result::Result<(), ErrorView> {
        match params {
            Some(value) => Err(
                ErrorView::with_message(
                    ErrorCode::InvalidParams,
                    "Unexpected params: "@ + json_text(value),
                ),
            ),
            None => Ok(()),
        }
    }

    fn from_params(params: Option<Value>) -> (r: Result<()>)
        ensures
            r is Ok <==> params is None,
    {
        if let Some(value) = params {
            let mut message = "Unexpected params: ".to_owned();
            message.append(to_text(&value).as_str());
            Err(Error::invalid_params(message))
        } else {
            Ok(())
        }
    }
}

/// A method with parameters needs the field, and needs it to be readable.
impl<P: Send> FromParams<std::result::Result<P, String>> for (P,) {
    open spec fn decoded(params: Option<std::result::Result<P, String>>) -> std::result::Result<
        (P,),
        ErrorView,
    > {
        match params {
            Some(Ok(value)) => Ok((value,)),
            Some(Err(message)) => Err(
                ErrorView::with_message(ErrorCode::InvalidParams, message@),
            ),
            None => Err(
                ErrorView::with_message(ErrorCode::InvalidParams, "Missing params field"@),
            ),
        }
    }

    fn from_params(params: Option<std::result::Result<P, String>>) -> (r: Result<(P,)>)
        ensures
            r is Ok <==> params is Some && params->0 is Ok,
            r matches Ok(value) ==> params->0->Ok_0 == value.0,
    {
        match params {
            Some(Ok(value)) => Ok((value,)),
            Some(Err(message)) => Err(Error::invalid_params(message)),
            None => Err(Error::invalid_params("Missing params field".to_owned())),
        }
    }
}

/// What a handler gives, seen as the answer to the message that it handled.
pub trait IntoResponse: Sized {
    /// The answer to a message with this `id`.
    spec fn response(self, id: Option<Id>) -> Option<ResponseView>;

    /// The answer to a message with this `id`.
    fn into_response(self, id: Option<Id>) -> (r: Option<Response>)
        ensures
            reply(r) == self.response(id),
    ;
}

/// A notification is never answered.
impl IntoResponse for () {
    open spec fn response(self, id: Option<Id>) -> Option<ResponseView> {
        None
    }

    fn into_response(self, _id: Option<Id>) -> (r: Option<Response>)
        ensures
            r is None,
    {
        None
    }
}

/// A request is answered with its result, under its own id.
impl IntoResponse for Result<Value> {
    open spec fn response(self, id: Option<Id>) -> Option<ResponseView> {
        match id {
            Some(id) => Some(ResponseView { id, result: outcome(self) }),
            None => None,
        }
    }

    fn into_response(self, id: Option<Id>) -> (r: Option<Response>)
        ensures
            r is Some <==> id is Some,
            r matches Some(response) ==> Some(response.id) == id && response.result == self,
    {
        if let Some(id) = id {
            Some(Response::from_parts(id, self))
        } else {
            None
        }
    }
}

/// What a server does with a message whose parameters could be read.
pub enum Verdict<E> {
    /// The handler is invoked, after the state was set where one is given.
    Proceed(Option<State>),
    /// The message is refused with an error.
    Refuse(E),
    /// The server stops.
    Exit,
}

/// What a server in this state does with a message for `method`.
pub open spec fn verdict(method: Seq<char>, state: State) -> Verdict<ErrorView> {
    if method == "initialize"@ {
        if state == State::Uninitialized {
            Verdict::Proceed(Some(State::Initializing))
        } else {
            Verdict::Refuse(ErrorView::plain(ErrorCode::InvalidRequest))
        }
    } else if method == "exit"@ {
        Verdict::Exit
    } else {
        match state {
            State::Uninitialized | State::Initializing => Verdict::Refuse(
                ErrorView::not_initialized(),
            ),
            State::Initialized => Verdict::Proceed(
                if method == "shutdown"@ {
                    Some(State::ShutDown)
                } else {
                    None
                },
            ),
            State::ShutDown | State::Exited => Verdict::Refuse(
                ErrorView::plain(ErrorCode::InvalidRequest),
            ),
        }
    }
}

impl View for Verdict<Error> {
    type V = Verdict<ErrorView>;

    open spec fn view(&self) -> Verdict<ErrorView> {
        match *self {
            Verdict::Proceed(set) => Verdict::Proceed(set),
            Verdict::Refuse(error) => Verdict::Refuse(error@),
            Verdict::Exit => Verdict::Exit,
        }
    }
}

/// Decides what a server in this state does with a message for `method`.
pub fn decide(method: &str, state: State) -> (r: Verdict<Error>)
    ensures
        r@ == verdict(method@, state),
{
    let initialize = same_text(method, "initialize");
    let shutdown = same_text(method, "shutdown");
    let exit = same_text(method, "exit");
    proof {
        reveal_strlit("shutdown");
        reveal_strlit("exit");
        assert("shutdown"@.len() != "exit"@.len());
    }
    match state {
        State::Uninitialized if initialize => Verdict::Proceed(Some(State::Initializing)),
        _ if initialize => Verdict::Refuse(Error::invalid_request()),
        State::Initialized if shutdown => Verdict::Proceed(Some(State::ShutDown)),
        _ if exit => Verdict::Exit,
        State::Uninitialized | State::Initializing => Verdict::Refuse(not_initialized_error()),
        State::Initialized => Verdict::Proceed(None),
        _ => Verdict::Refuse(Error::invalid_request()),
    }
}

/// A message whose handler was invoked.
#[derive(Debug)]
pub struct Call {
    method: String,
    id: Option<Id>,
}

/// What is to be done next about a message that has a handler.
#[derive(Debug)]
pub enum Step<P> {
    /// The message is done with, with this answer.
    Reply(Option<Response>),
    /// The handler is invoked with these parameters; what it gives goes to
    /// [`Call::finish`].
    Invoke(Call, P),
}

/// What a [`Step`] says.
pub enum StepView<P> {
    Reply(Option<ResponseView>),
    Invoke { method: Seq<char>, id: Option<Id>, params: P },
}

impl<P> View for Step<P> {
    type V = StepView<P>;

    open spec fn view(&self) -> StepView<P> {
        match *self {
            Step::Reply(response) => StepView::Reply(reply(response)),
            Step::Invoke(call, params) => StepView::Invoke {
                method: call.method(),
                id: call.id(),
                params,
            },
        }
    }
}

/// The state to set and the step to take on a message for `method` whose
/// parameters were `decoded` with this result.
pub open spec fn started<P>(
    method: Seq<char>,
    id: Option<Id>,
    decoded: std::result::Result<P, ErrorView>,
    state: State,
) -> (Option<State>, StepView<P>) {
    match decoded {
        Err(error) => (None, StepView::Reply(refusal(id, error))),
        Ok(params) => match verdict(method, state) {
            Verdict::Proceed(set) => (set, StepView::Invoke { method, id, params }),
            Verdict::Refuse(error) => (None, StepView::Reply(refusal(id, error))),
            Verdict::Exit => (Some(State::Exited), StepView::Reply(None)),
        },
    }
}

/// The state to set after a message for `method` was answered with `response`.
pub open spec fn finished(method: Seq<char>, response: Option<ResponseView>) -> Option<State> {
    if method == "initialize"@ {
        match response {
            Some(response) if response.result is Ok => Some(State::Initialized),
            _ => Some(State::Uninitialized),
        }
    } else {
        None
    }
}

impl Call {
    /// The method of the message.
    pub closed spec fn method(self) -> Seq<char> {
        self.method@
    }

    /// The id of the message.
    pub closed spec fn id(self) -> Option<Id> {
        self.id
    }

    /// Takes up a message that has a handler with parameters `P`, of a server in
    /// this `state`: gives the state to set, if there is one, and the step to
    /// take after that.
    pub fn start<V, P: FromParams<V>>(
        method: String,
        id: Option<Id>,
        params: Option<V>,
        state: State,
    ) -> (r: (Option<State>, Step<P>))
        ensures
            (r.0, r.1@) == started(method@, id, P::decoded(params), state),
    {
        match P::from_params(params) {
            Err(error) => (None, Step::Reply(refuse(id, error))),
            Ok(params) => match decide(method.as_str(), state) {
                Verdict::Proceed(set) => (set, Step::Invoke(Call { method, id }, params)),
                Verdict::Refuse(error) => (None, Step::Reply(refuse(id, error))),
                Verdict::Exit => (Some(State::Exited), Step::Reply(None)),
            },
        }
    }

    /// Ends the call with what its handler gave: gives the state to set, if there
    /// is one, and the answer.
    pub fn finish<R: IntoResponse>(self, result: R) -> (r: (Option<State>, Option<Response>))
        ensures
            reply(r.1) == result.response(self.id()),
            r.0 == finished(self.method(), result.response(self.id())),
    {
        let response = result.into_response(self.id);
        let set = if same_text(self.method.as_str(), "initialize") {
            match &response {
                Some(response) if response.is_ok() => Some(State::Initialized),
                _ => Some(State::Uninitialized),
            }
        } else {
            None
        };
        (set, response)
    }
}

/// The handlers of a server, each under the name of its method.
#[verifier::reject_recursive_types(H)]
pub struct Router<S, H> {
    server: S,
    methods: StringHashMap<H>,
}

/// What becomes of a request.
pub enum Dispatch<'a, S, H> {
    /// The request goes to its handler.
    Handle(&'a H, &'a S, Request),
    /// The request has no handler, and is answered with this.
    Reply(Option<Response>),
}

/// The handlers after one more was registered: a name keeps its first handler.
pub open spec fn registered<H>(
    methods: Map<Seq<char>, H>,
    name: Seq<char>,
    handler: H,
) -> Map<Seq<char>, H> {
    if methods.contains_key(name) {
        methods
    } else {
        methods.insert(name, handler)
    }
}

/// Whether messages for `method` may be left out by an implementation.
pub open spec fn is_optional(method: Seq<char>) -> bool {
    method.len() >= 2 && method[0] == '$' && method[1] == '/'
}

/// The answer to a message for a method that has no handler.
pub open spec fn unregistered(method: Seq<char>, id: Option<Id>) -> Option<ResponseView> {
    if is_optional(method) {
        None
    } else {
        refusal(id, ErrorView::plain(ErrorCode::MethodNotFound))
    }
}

impl<S, H> View for Router<S, H> {
    type V = Map<Seq<char>, H>;

    /// The handlers, by the names of their methods.
    closed spec fn view(&self) -> Map<Seq<char>, H> {
        self.methods@
    }
}

impl<S, H> Router<S, H> {
    /// The server whose handlers these are.
    pub closed spec fn server(&self) -> S {
        self.server
    }

    /// A router without handlers.
    pub fn new(server: S) -> (r: Router<S, H>)
        ensures
            r.server() == server,
            r@ == Map::<Seq<char>, H>::empty(),
    {
        Router { server, methods: StringHashMap::new() }
    }

    /// Registers a handler for the method of this name, unless it has one.
    pub fn register_method(&mut self, method_name: &str, handler: H)
        ensures
            final(self).server() == old(self).server(),
            final(self)@ == registered(old(self)@, method_name@, handler),
    {
        if !self.methods.contains_key(method_name) {
            self.methods.insert(method_name.to_owned(), handler);
        }
    }

    /// Finds the handler of a request, or answers a request that has none.
    pub fn call(&self, req: Request) -> (r: Dispatch<'_, S, H>)
        ensures
            match r {
                Dispatch::Handle(handler, server, request) => {
                    &&& self@.contains_key(req.method@)
                    &&& *handler == self@[req.method@]
                    &&& *server == self.server()
                    &&& request == req
                },
                Dispatch::Reply(response) => {
                    &&& !self@.contains_key(req.method@)
                    &&& reply(response) == unregistered(req.method@, req.id)
                },
            },
    {
        if let Some(handler) = self.methods.get(req.method()) {
            Dispatch::Handle(handler, &self.server, req)
        } else {
            let (method, id, _) = req.into_parts();
            if starts_optional(method.as_str()) {
                Dispatch::Reply(None)
            } else {
                Dispatch::Reply(refuse(id, Error::method_not_found()))
            }
        }
    }
}

/// Whether `method` starts with `$/`.
fn starts_optional(method: &str) -> (r: bool)
    ensures
        r == is_optional(method@),
{
    method.unicode_len() >= 2 && method.get_char(0) == '$' && method.get_char(1) == '/'
}

} // verus!
