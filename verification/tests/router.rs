use futures::executor::block_on;
use lsp_service::jsonrpc::error::{not_initialized_error, Error, ErrorCode, Result};
use lsp_service::jsonrpc::message::{Id, Request, Response};
use lsp_service::jsonrpc::router::{
    decide, Call, Dispatch, FromParams, IntoResponse, Method, Router, Step, Verdict,
};
use lsp_service::state::State;
use serde_json::Value;

const REQUEST_WITH_PARAMS: &str = "custom/requestWithParams";
const REQUEST_WITHOUT_PARAMS: &str = "custom/requestWithoutParams";
const NOTIF_WITH_PARAMS: &str = "custom/notifWithParams";
const NOTIF_WITHOUT_PARAMS: &str = "custom/notifWithoutParams";

struct Server;

impl Server {
    async fn request_with_params(&self, _params: Vec<i32>) -> Result<String> {
        Ok("first".to_owned())
    }

    async fn request_without_params(&self) -> Result<String> {
        Ok("second".to_owned())
    }

    async fn notification_with_params(&self, _params: Vec<i32>) {}

    async fn notification_without_params(&self) {}
}

type Handler = Box<dyn Fn(&Server, Request, &mut State) -> Option<Response>>;

fn string(text: &str) -> Value {
    Value::String(text.to_owned())
}

fn ints(value: Value) -> std::result::Result<Vec<i32>, String> {
    serde_json::from_value(value).map_err(|e| e.to_string())
}

fn handle<V, P: FromParams<V>, R: IntoResponse>(
    method: String,
    id: Option<Id>,
    params: Option<V>,
    state: &mut State,
    invoke: impl FnOnce(P) -> R,
) -> Option<Response> {
    let (set, step) = Call::start::<V, P>(method, id, params, *state);
    if let Some(next) = set {
        *state = next;
    }
    match step {
        Step::Reply(response) => response,
        Step::Invoke(call, params) => {
            let (set, response) = call.finish(invoke(params));
            if let Some(next) = set {
                *state = next;
            }
            response
        }
    }
}

fn create_router() -> Router<Server, Handler> {
    let mut router: Router<Server, Handler> = Router::new(Server);
    router.register_method(
        REQUEST_WITH_PARAMS,
        Box::new(|server: &Server, request: Request, state: &mut State| {
            let (method, id, params) = request.into_parts();
            handle(method, id, params.map(ints), state, |params: (Vec<i32>,)| {
                block_on(Server::request_with_params.invoke(server, params))
                    .map(|text| string(&text))
            })
        }),
    );
    router.register_method(
        REQUEST_WITHOUT_PARAMS,
        Box::new(|server: &Server, request: Request, state: &mut State| {
            let (method, id, params) = request.into_parts();
            handle(method, id, params, state, |params: ()| {
                block_on(Server::request_without_params.invoke(server, params))
                    .map(|text| string(&text))
            })
        }),
    );
    router.register_method(
        NOTIF_WITH_PARAMS,
        Box::new(|server: &Server, request: Request, state: &mut State| {
            let (method, id, params) = request.into_parts();
            handle(method, id, params.map(ints), state, |params: (Vec<i32>,)| {
                block_on(Server::notification_with_params.invoke(server, params))
            })
        }),
    );
    router.register_method(
        NOTIF_WITHOUT_PARAMS,
        Box::new(|server: &Server, request: Request, state: &mut State| {
            let (method, id, params) = request.into_parts();
            handle(method, id, params, state, |params: ()| {
                block_on(Server::notification_without_params.invoke(server, params))
            })
        }),
    );
    router
}

fn create_request(method_name: &str, is_notification: bool, has_params: bool) -> Request {
    Request {
        method: method_name.to_owned(),
        params: if has_params { Some(Value::Array(vec![])) } else { None },
        id: if is_notification { None } else { Some(Id::Number(1)) },
    }
}

fn call_in(router: &Router<Server, Handler>, request: Request, state: &mut State) -> Option<Response> {
    match router.call(request) {
        Dispatch::Handle(handler, server, request) => handler(server, request, state),
        Dispatch::Reply(response) => response,
    }
}

fn call(router: &Router<Server, Handler>, request: Request) -> Option<Response> {
    call_in(router, request, &mut State::Initialized)
}

#[test]
fn dispatches_request_with_params() {
    let router = create_router();
    let response = call(&router, create_request(REQUEST_WITH_PARAMS, false, true));
    assert_eq!(response, Some(Response::ok(Id::Number(1), string("first"))));
}

#[test]
fn dispatches_request_without_params() {
    let router = create_router();
    let response = call(&router, create_request(REQUEST_WITHOUT_PARAMS, false, false));
    assert_eq!(response, Some(Response::ok(Id::Number(1), string("second"))));
}

#[test]
fn dispatches_notification_with_params() {
    let router = create_router();
    let response = call(&router, create_request(NOTIF_WITH_PARAMS, true, true));
    assert_eq!(response, None);
}

#[test]
fn dispatches_notification_without_params() {
    let router = create_router();
    let response = call(&router, create_request(NOTIF_WITHOUT_PARAMS, true, false));
    assert_eq!(response, None);
}

#[test]
fn rejects_unregistered_request() {
    let router = create_router();
    let response = call(&router, create_request("custom/nonexistent", false, false));
    assert_eq!(
        response,
        Some(Response::error(Id::Number(1), Error::method_not_found()))
    );
}

#[test]
fn drops_unregistered_messages_that_need_no_answer() {
    let router = create_router();
    assert_eq!(call(&router, create_request("custom/nonexistent", true, false)), None);
    assert_eq!(call(&router, create_request("$/cancelRequest", true, true)), None);
    assert_eq!(call(&router, create_request("$/unknown", false, false)), None);
    assert_eq!(call(&router, create_request("$/", false, false)), None);
    for method in ["$", "", "/$", "x$/"] {
        assert_eq!(
            call(&router, create_request(method, false, false)),
            Some(Response::error(Id::Number(1), Error::method_not_found()))
        );
    }
}

#[test]
fn rejects_unexpected_params() {
    let router = create_router();
    let mut request = create_request(REQUEST_WITHOUT_PARAMS, false, true);
    request.params = Some(serde_json::from_str("{\"b\": [1, 2],\n \"a\": \"x\\\"y\"}").unwrap());
    let response = call(&router, request).unwrap();
    let (id, result) = response.into_parts();
    let error = result.unwrap_err();
    assert_eq!(id, Id::Number(1));
    assert_eq!(error.code, ErrorCode::InvalidParams);
    assert_eq!(error.message, "Unexpected params: {\"a\":\"x\\\"y\",\"b\":[1,2]}");
    assert_eq!(error.data, None);
    assert_eq!(call(&router, create_request(NOTIF_WITHOUT_PARAMS, true, true)), None);
}

#[test]
fn rejects_missing_params() {
    let router = create_router();
    let response = call(&router, create_request(REQUEST_WITH_PARAMS, false, false));
    assert_eq!(
        response,
        Some(Response::error(
            Id::Number(1),
            Error::invalid_params("Missing params field".to_owned())
        ))
    );
}

#[test]
fn rejects_unreadable_params() {
    let router = create_router();
    let mut request = create_request(REQUEST_WITH_PARAMS, false, true);
    request.params = Some(Value::Bool(true));
    let expected = serde_json::from_value::<Vec<i32>>(Value::Bool(true)).unwrap_err();
    assert_eq!(
        call_in(&router, request, &mut State::Uninitialized),
        Some(Response::error(
            Id::Number(1),
            Error::invalid_params(expected.to_string())
        ))
    );
}

#[test]
fn first_registration_stays() {
    let mut router: Router<u8, &str> = Router::new(7);
    router.register_method("a", "first");
    router.register_method("b", "other");
    router.register_method("a", "second");
    let request = || Request { method: "a".to_owned(), params: None, id: None };
    match router.call(request()) {
        Dispatch::Handle(handler, server, received) => {
            assert_eq!(*handler, "first");
            assert_eq!(*server, 7);
            assert_eq!(received, request());
        }
        Dispatch::Reply(_) => panic!("a handler was registered"),
    }
}

fn answer(method: &str, state: &mut State, result: Result<Value>) -> Option<Response> {
    handle(method.to_owned(), Some(Id::Number(1)), None, state, |_: ()| result)
}

#[test]
fn session_runs_from_initialize_to_exit() {
    let mut state = State::Uninitialized;
    let ok = || Ok(Value::Null);
    let done = || Some(Response::ok(Id::Number(1), Value::Null));
    let refused = |error| Some(Response::error(Id::Number(1), error));

    assert_eq!(answer("custom/a", &mut state, ok()), refused(not_initialized_error()));
    assert_eq!(answer("shutdown", &mut state, ok()), refused(not_initialized_error()));
    assert_eq!(state, State::Uninitialized);

    let failed = Err(Error::internal_error());
    assert_eq!(answer("initialize", &mut state, failed), refused(Error::internal_error()));
    assert_eq!(state, State::Uninitialized);

    assert_eq!(answer("initialize", &mut state, ok()), done());
    assert_eq!(state, State::Initialized);
    assert_eq!(answer("initialize", &mut state, ok()), refused(Error::invalid_request()));
    assert_eq!(answer("custom/a", &mut state, ok()), done());
    assert_eq!(state, State::Initialized);

    assert_eq!(answer("shutdown", &mut state, ok()), done());
    assert_eq!(state, State::ShutDown);
    assert_eq!(answer("shutdown", &mut state, ok()), refused(Error::invalid_request()));
    assert_eq!(answer("custom/a", &mut state, ok()), refused(Error::invalid_request()));

    assert_eq!(answer("exit", &mut state, ok()), None);
    assert_eq!(state, State::Exited);
    assert_eq!(answer("initialize", &mut state, ok()), refused(Error::invalid_request()));
    assert_eq!(answer("custom/a", &mut state, ok()), refused(Error::invalid_request()));
    assert_eq!(answer("exit", &mut state, ok()), None);
    assert_eq!(state, State::Exited);
}

#[test]
fn initialize_is_handled_once_at_a_time() {
    let start = |method: &str, state| {
        Call::start::<Value, ()>(method.to_owned(), Some(Id::Number(1)), None, state)
    };
    let (set, step) = start("initialize", State::Uninitialized);
    assert_eq!(set, Some(State::Initializing));
    let running = match step {
        Step::Invoke(call, ()) => call,
        Step::Reply(_) => panic!("the first request is passed on"),
    };
    let (set, step) = start("initialize", State::Initializing);
    assert_eq!(set, None);
    assert!(matches!(step, Step::Reply(Some(r)) if r.result == Err(Error::invalid_request())));
    let (set, step) = start("custom/a", State::Initializing);
    assert_eq!(set, None);
    assert!(matches!(step, Step::Reply(Some(r)) if r.result == Err(not_initialized_error())));
    let (set, response) = running.finish(());
    assert_eq!(set, Some(State::Uninitialized));
    assert_eq!(response, None);
}

#[test]
fn exit_stops_the_server() {
    let start = |method: &str, state| {
        Call::start::<Value, ()>(method.to_owned(), Some(Id::Number(1)), None, state)
    };
    let (_, step) = start("initialize", State::Uninitialized);
    let running = match step {
        Step::Invoke(call, ()) => call,
        Step::Reply(_) => panic!("the first request is passed on"),
    };
    let (set, step) = start("exit", State::Initializing);
    assert_eq!(set, Some(State::Exited));
    assert!(matches!(step, Step::Reply(None)));
    for method in ["custom/a", "shutdown", "initialize"] {
        let (set, step) = start(method, State::Exited);
        assert_eq!(set, None);
        assert!(matches!(step, Step::Reply(Some(r)) if r.result == Err(Error::invalid_request())));
    }
    let (set, _) = running.finish(Ok(Value::Null));
    assert_eq!(set, Some(State::Initialized));
}

#[test]
fn registration_order_is_free() {
    for names in [["a", "b"], ["b", "a"]] {
        let mut router: Router<(), &str> = Router::new(());
        for name in names {
            router.register_method(name, name);
        }
        for name in ["a", "b"] {
            let request = Request { method: name.to_owned(), params: None, id: None };
            assert!(matches!(router.call(request), Dispatch::Handle(h, _, _) if *h == name));
        }
    }
}

#[test]
fn notifications_are_never_refused_aloud() {
    for state in [State::Uninitialized, State::Initializing, State::ShutDown, State::Exited] {
        let (set, step) = Call::start::<Value, ()>("custom/a".to_owned(), None, None, state);
        assert_eq!(set, None);
        assert!(matches!(step, Step::Reply(None)));
    }
    let (set, response) = match Call::start::<Value, ()>(
        "initialize".to_owned(),
        None,
        None,
        State::Uninitialized,
    ) {
        (Some(State::Initializing), Step::Invoke(call, ())) => call.finish(Ok(Value::Null)),
        _ => panic!("the request is passed on"),
    };
    assert_eq!(set, Some(State::Uninitialized));
    assert_eq!(response, None);
}

#[test]
fn decisions() {
    assert!(matches!(
        decide("initialize", State::Uninitialized),
        Verdict::Proceed(Some(State::Initializing))
    ));
    assert!(matches!(
        decide("shutdown", State::Initialized),
        Verdict::Proceed(Some(State::ShutDown))
    ));
    assert!(matches!(decide("custom/a", State::Initialized), Verdict::Proceed(None)));
    assert!(matches!(decide("exit", State::Uninitialized), Verdict::Exit));
    assert!(matches!(
        decide("custom/a", State::Initializing),
        Verdict::Refuse(e) if e == not_initialized_error()
    ));
    assert!(matches!(
        decide("custom/a", State::Exited),
        Verdict::Refuse(e) if e == Error::invalid_request()
    ));
}

#[test]
fn errors_have_their_numbers() {
    assert_eq!(not_initialized_error().code.code(), -32002);
    assert_eq!(not_initialized_error().message, "Server not initialized");
    assert_eq!(ErrorCode::ParseError.code(), -32700);
    assert_eq!(Error::invalid_request().code.code(), -32600);
    assert_eq!(Error::method_not_found().code.code(), -32601);
    assert_eq!(Error::invalid_params(String::new()).code.code(), -32602);
    assert_eq!(Error::internal_error().code.code(), -32603);
    assert_eq!(Error::new(ErrorCode::ServerError(-7)).message, "Server error");
    assert_eq!(Error::new(ErrorCode::ParseError).message, "Parse error");
}
