//! What holds of the answers to requests, said of the functions that give them.

use super::error::{not_initialized_error, Error, ErrorCode, Result};
use super::message::{refuse, Id, Request, Response};
use super::router::{decide, registered, Call, Dispatch, FromParams, Router, Step, Verdict};
use crate::json::json_text;
use crate::state::State;
use serde_json::Value;
use vstd::prelude::*;

verus! {

/// Whether a response carries a result as it is: the value itself or, of an error, the
/// same code, the same message and the same data.
pub open spec fn carries(given: Result<Value>, result: Result<Value>) -> bool {
    match result {
        Ok(value) => given matches Ok(found) && found == value,
        Err(error) => given matches Err(found) && {
            &&& found.code == error.code
            &&& found.message@ == error.message@
            &&& found.data == error.data
        },
    }
}

/// Whether a message with this id is answered with an error of this code and message,
/// without data, under its own id; a message without an id is not answered.
pub open spec fn answers_error(
    response: Option<Response>,
    id: Option<Id>,
    code: ErrorCode,
    message: Seq<char>,
) -> bool {
    match id {
        None => response is None,
        Some(id) => response matches Some(response) && {
            &&& response.id == id
            &&& response.result matches Err(error) && {
                &&& error.code == code
                &&& error.message@ == message
                &&& error.data is None
            }
        },
    }
}

/// A request whose handler was invoked is answered, under its own id, with what the
/// handler gave: a value as it is, an error with its code, message and data. A message
/// without an id is not answered.
pub proof fn law_answer_is_what_the_handler_gave<V, P: FromParams<V>>(
    method: String,
    id: Option<Id>,
    params: Option<V>,
    state: State,
    begun: (Option<State>, Step<P>),
    result: Result<Value>,
    ended: (Option<State>, Option<Response>),
)
    requires
        call_ensures(Call::start::<V, P>, (method, id, params, state), begun),
        begun.1 is Invoke,
        call_ensures(Call::finish::<Result<Value>>, (begun.1->Invoke_0, result), ended),
    ensures
        id is None ==> ended.1 is None,
        id matches Some(id) ==> (ended.1 matches Some(response) && response.id == id && carries(
            response.result,
            result,
        )),
{
}

/// Of two results that differ, the answers differ, too: no two values, and no two
/// errors, are told the client as one.
pub proof fn law_answers_tell_results_apart(
    call: Call,
    first: Result<Value>,
    second: Result<Value>,
    one: (Option<State>, Option<Response>),
    other: (Option<State>, Option<Response>),
)
    requires
        call_ensures(Call::finish::<Result<Value>>, (call, first), one),
        call_ensures(Call::finish::<Result<Value>>, (call, second), other),
        call.id() is Some,
        !carries(first, second),
    ensures
        one.1 is Some,
        other.1 is Some,
        !carries(one.1->0.result, other.1->0.result),
{
}

/// The end of an `initialize` request opens the server if it was answered with a value,
/// and takes it back to its start if not; the end of any other leaves the state.
pub proof fn law_initialize_ends<V, P: FromParams<V>>(
    method: String,
    id: Option<Id>,
    params: Option<V>,
    state: State,
    begun: (Option<State>, Step<P>),
    result: Result<Value>,
    ended: (Option<State>, Option<Response>),
)
    requires
        call_ensures(Call::start::<V, P>, (method, id, params, state), begun),
        begun.1 is Invoke,
        call_ensures(Call::finish::<Result<Value>>, (begun.1->Invoke_0, result), ended),
    ensures
        ended.0 is Some <==> method@ == "initialize"@,
        ended.0 is Some ==> (ended.0 == Some(State::Initialized) <==> id is Some && result is Ok),
        ended.0 is Some ==> (ended.0 == Some(State::Uninitialized) <==> id is None || result is Err),
{
}

/// A notification is not answered, whatever its id; only that of `initialize` changes
/// the state, back to the start.
pub proof fn law_notifications_are_not_answered<V, P: FromParams<V>>(
    method: String,
    id: Option<Id>,
    params: Option<V>,
    state: State,
    begun: (Option<State>, Step<P>),
    ended: (Option<State>, Option<Response>),
)
    requires
        call_ensures(Call::start::<V, P>, (method, id, params, state), begun),
        begun.1 is Invoke,
        call_ensures(Call::finish::<()>, (begun.1->Invoke_0, ()), ended),
    ensures
        ended.1 is None,
        ended.0 is Some <==> method@ == "initialize"@,
        ended.0 is Some ==> ended.0 == Some(State::Uninitialized),
{
}

/// A handler is invoked, with the parameters as they were read, if and only if they
/// could be read and either the message is the `initialize` of a new server, or the
/// server is initialized and the message is neither `initialize` nor `exit`.
pub proof fn law_who_is_served<V, P: FromParams<V>>(
    method: String,
    id: Option<Id>,
    params: Option<V>,
    state: State,
    begun: (Option<State>, Step<P>),
)
    requires
        call_ensures(Call::start::<V, P>, (method, id, params, state), begun),
    ensures
        begun.1 is Invoke <==> {
            &&& P::decoded(params) is Ok
            &&& {
                ||| method@ == "initialize"@ && state == State::Uninitialized
                ||| method@ != "initialize"@ && method@ != "exit"@ && state == State::Initialized
            }
        },
        begun.1 matches Step::Invoke(_, passed) ==> P::decoded(params) == Ok::<
            P,
            super::error::ErrorView,
        >(passed),
{
    reveal_strlit("initialize");
    reveal_strlit("exit");
    assert("initialize"@.len() == 10 && "exit"@.len() == 4);
}

/// The receipt of a message changes the state in three ways alone: the `initialize` of a
/// new server starts it, the `shutdown` of an initialized server shuts it down, and
/// `exit` stops it from any state; each only with parameters that can be read.
pub proof fn law_receipt_changes_the_state<V, P: FromParams<V>>(
    method: String,
    id: Option<Id>,
    params: Option<V>,
    state: State,
    begun: (Option<State>, Step<P>),
)
    requires
        call_ensures(Call::start::<V, P>, (method, id, params, state), begun),
    ensures
        begun.0 == Some(State::Initializing) <==> P::decoded(params) is Ok && method@
            == "initialize"@ && state == State::Uninitialized,
        begun.0 == Some(State::ShutDown) <==> P::decoded(params) is Ok && method@ == "shutdown"@
            && state == State::Initialized,
        begun.0 == Some(State::Exited) <==> P::decoded(params) is Ok && method@ == "exit"@,
        begun.0 != Some(State::Uninitialized) && begun.0 != Some(State::Initialized),
{
    reveal_strlit("initialize");
    reveal_strlit("shutdown");
    reveal_strlit("exit");
    assert("initialize"@.len() == 10 && "shutdown"@.len() == 8 && "exit"@.len() == 4);
}

/// An initialized server passes on every message whose parameters can be read, but
/// `initialize` and `exit`, and stays initialized on all of them but `shutdown`: so it
/// passes on the next one, too.
pub proof fn law_initialized_server_goes_on<V, P: FromParams<V>>(
    method: String,
    id: Option<Id>,
    params: Option<V>,
    begun: (Option<State>, Step<P>),
)
    requires
        call_ensures(Call::start::<V, P>, (method, id, params, State::Initialized), begun),
        method@ != "shutdown"@,
        method@ != "exit"@,
    ensures
        begun.0 is None,
        method@ != "initialize"@ && P::decoded(params) is Ok ==> begun.1 is Invoke,
{
    law_receipt_changes_the_state::<V, P>(method, id, params, State::Initialized, begun);
    law_who_is_served::<V, P>(method, id, params, State::Initialized, begun);
}

/// What a message is answered that is not passed on. `exit` is not answered. Parameters
/// that cannot be read are answered with what is wrong with them. Before the server is
/// initialized, all but `initialize` is answered that it is not, with the code -32002;
/// everything else is an invalid request.
pub proof fn law_refusals<V, P: FromParams<V>>(
    method: String,
    id: Option<Id>,
    params: Option<V>,
    state: State,
    begun: (Option<State>, Step<P>),
)
    requires
        call_ensures(Call::start::<V, P>, (method, id, params, state), begun),
        begun.1 is Reply,
    ensures
        match P::decoded(params) {
            Err(error) => begun.0 is None && match id {
                None => begun.1->Reply_0 is None,
                Some(id) => begun.1->Reply_0 matches Some(response) && response.id == id && (
                response.result matches Err(given) && given@ == error),
            },
            Ok(_) => if method@ == "exit"@ {
                begun.1->Reply_0 is None
            } else if method@ != "initialize"@ && (state == State::Uninitialized || state
                == State::Initializing) {
                answers_error(
                    begun.1->Reply_0,
                    id,
                    ErrorCode::ServerError(-32002i64),
                    "Server not initialized"@,
                )
            } else {
                answers_error(
                    begun.1->Reply_0,
                    id,
                    ErrorCode::InvalidRequest,
                    "Invalid request"@,
                )
            },
        },
{
    reveal_strlit("initialize");
    reveal_strlit("exit");
    assert("initialize"@.len() == 10 && "exit"@.len() == 4);
}

/// The decision alone: a message goes to its handler, is refused, or stops the server.
pub proof fn law_decisions(method: &str, state: State, verdict: Verdict<Error>)
    requires
        call_ensures(decide, (method, state), verdict),
    ensures
        verdict is Exit <==> method@ == "exit"@,
        verdict is Proceed <==> {
            ||| method@ == "initialize"@ && state == State::Uninitialized
            ||| method@ != "initialize"@ && method@ != "exit"@ && state == State::Initialized
        },
        verdict matches Verdict::Proceed(set) ==> set == if method@ == "initialize"@ {
            Some(State::Initializing)
        } else if method@ == "shutdown"@ {
            Some(State::ShutDown)
        } else {
            None::<State>
        },
        verdict matches Verdict::Refuse(error) ==> {
            let early = method@ != "initialize"@ && (state == State::Uninitialized || state
                == State::Initializing);
            &&& error.code == if early {
                ErrorCode::ServerError(-32002i64)
            } else {
                ErrorCode::InvalidRequest
            }
            &&& error.message@ == if early {
                "Server not initialized"@
            } else {
                "Invalid request"@
            }
            &&& error.data is None
        },
{
    reveal_strlit("initialize");
    reveal_strlit("shutdown");
    reveal_strlit("exit");
    assert("initialize"@.len() == 10 && "shutdown"@.len() == 8 && "exit"@.len() == 4);
}

/// A request for a method that has no handler and does not start with `$/` is always
/// answered, under its own id, that the method was not found. Only messages without an
/// id and methods that start with `$/` go unanswered.
pub proof fn law_unknown_methods_are_answered<S, H>(
    router: &Router<S, H>,
    request: Request,
    dispatch: Dispatch<'_, S, H>,
)
    requires
        call_ensures(Router::<S, H>::call, (router, request), dispatch),
        !router@.contains_key(request.method@),
    ensures
        dispatch is Reply,
        dispatch->Reply_0 is None <==> request.id is None || "$/"@.is_prefix_of(request.method@),
        dispatch->Reply_0 is Some ==> answers_error(
            dispatch->Reply_0,
            request.id,
            ErrorCode::MethodNotFound,
            "Method not found"@,
        ),
{
    reveal_strlit("$/");
    let (prefix, method) = ("$/"@, request.method@);
    assert(prefix.len() == 2 && prefix[0] == '$' && prefix[1] == '/');
    if method.len() >= 2 && method[0] == '$' && method[1] == '/' {
        assert(method.take(2) =~= prefix);
        assert(prefix.is_prefix_of(method));
    } else if prefix.is_prefix_of(method) {
        assert(method[0] == prefix[0]);
        assert(method[1] == prefix[1]);
    }
}

/// A request for a method that has a handler goes to that handler, unchanged, with the
/// server.
pub proof fn law_known_methods_are_dispatched<S, H>(
    router: &Router<S, H>,
    request: Request,
    dispatch: Dispatch<'_, S, H>,
)
    requires
        call_ensures(Router::<S, H>::call, (router, request), dispatch),
        router@.contains_key(request.method@),
    ensures
        dispatch matches Dispatch::Handle(handler, server, passed) && {
            &&& *handler == router@[request.method@]
            &&& *server == router.server()
            &&& passed == request
        },
{
}

/// A name that was registered has a handler, the first that was registered for it; a
/// name that was not has none. So the handlers after a registration are those before
/// it, with at most this one more.
pub proof fn law_registration_adds_one<H>(
    methods: Map<Seq<char>, H>,
    name: Seq<char>,
    handler: H,
    asked: Seq<char>,
)
    ensures
        registered(methods, name, handler).contains_key(asked) <==> asked == name
            || methods.contains_key(asked),
        methods.contains_key(asked) ==> registered(methods, name, handler)[asked]
            == methods[asked],
        asked == name && !methods.contains_key(asked) ==> registered(methods, name, handler)[asked]
            == handler,
{
}

/// A method without parameters accepts a message without a `params` field alone. Any
/// such field is refused as invalid, with its text.
pub proof fn law_unexpected_params(params: Option<Value>, read: Result<()>)
    requires
        call_ensures(<() as FromParams<Value>>::from_params, (params,), read),
    ensures
        read is Ok <==> params is None,
        params matches Some(value) ==> (read matches Err(error) && {
            &&& error.code == ErrorCode::InvalidParams
            &&& error.message@ == "Unexpected params: "@ + json_text(value)
            &&& error.data is None
        }),
{
}

/// A method with parameters gets what its `params` field was read as. Where the field
/// could not be read it is refused as invalid with the message of the reader, and where
/// it is missing, with a message that says so.
pub proof fn law_expected_params<P: Send>(
    params: Option<std::result::Result<P, String>>,
    read: Result<(P,)>,
)
    requires
        call_ensures(
            <(P,) as FromParams<std::result::Result<P, String>>>::from_params,
            (params,),
            read,
        ),
    ensures
        read is Ok <==> params is Some && params->0 is Ok,
        params matches Some(Ok(value)) ==> (read matches Ok(passed) && passed.0 == value),
        read matches Err(error) ==> error.code == ErrorCode::InvalidParams && error.data is None,
        params matches Some(Err(message)) ==> (read matches Err(error) && error.message@
            == message@),
        params is None ==> (read matches Err(error) && error.message@ == "Missing params field"@),
{
}

/// A request is refused with the error that is given, under its own id; a notification
/// is not answered.
pub proof fn law_refuse(id: Option<Id>, error: Error, response: Option<Response>)
    requires
        call_ensures(refuse, (id, error), response),
    ensures
        response is Some <==> id is Some,
        response matches Some(response) ==> Some(response.id) == id && carries(
            response.result,
            Err(error),
        ),
{
}

/// The numbers that JSON-RPC gives the errors, and that of a server's own error.
pub proof fn law_error_numbers(code: ErrorCode, number: i64)
    requires
        call_ensures(ErrorCode::code, (&code,), number),
    ensures
        code == ErrorCode::ParseError ==> number == -32700,
        code == ErrorCode::InvalidRequest ==> number == -32600,
        code == ErrorCode::MethodNotFound ==> number == -32601,
        code == ErrorCode::InvalidParams ==> number == -32602,
        code == ErrorCode::InternalError ==> number == -32603,
        code matches ErrorCode::ServerError(own) ==> number == own,
{
}

/// An error of which only the code is known has the description of that code for its
/// message, and no data.
pub proof fn law_plain_errors(code: ErrorCode, error: Error, description: &'static str)
    requires
        call_ensures(Error::new, (code,), error),
        call_ensures(ErrorCode::description, (&code,), description),
    ensures
        error.code == code,
        error.message@ == description@,
        error.data is None,
        description@ == match code {
            ErrorCode::ParseError => "Parse error"@,
            ErrorCode::InvalidRequest => "Invalid request"@,
            ErrorCode::MethodNotFound => "Method not found"@,
            ErrorCode::InvalidParams => "Invalid params"@,
            ErrorCode::InternalError => "Internal error"@,
            ErrorCode::ServerError(_) => "Server error"@,
        },
{
}

/// An error with a message of its own has that message, the code that is given, and no
/// data.
pub proof fn law_errors_with_message(code: ErrorCode, message: String, error: Error)
    requires
        call_ensures(Error::with_message, (code, message), error),
    ensures
        error.code == code,
        error.message@ == message@,
        error.data is None,
{
}

/// The error of a server that was not initialized.
pub proof fn law_not_initialized_error(error: Error)
    requires
        call_ensures(not_initialized_error, (), error),
    ensures
        error.code == ErrorCode::ServerError(-32002i64),
        error.message@ == "Server not initialized"@,
        error.data is None,
{
}

} // verus!
