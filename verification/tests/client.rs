use lsp_service::client::{Client, Delivery, PendingRequest};
use lsp_service::jsonrpc::error::{not_initialized_error, Error, ErrorCode, Result};
use lsp_service::jsonrpc::message::{ClientRequest, Id, Outgoing};
use lsp_service::state::State;
use lsp_types::notification::{
    LogMessage, Notification, PublishDiagnostics, ShowMessage, TelemetryEvent,
};
use lsp_types::request::{
    ApplyWorkspaceEdit, CodeLensRefresh, RegisterCapability, Request, SemanticTokensRefresh,
    ShowMessageRequest, UnregisterCapability, WorkspaceConfiguration, WorkspaceFoldersRequest,
};
use lsp_types::{
    ApplyWorkspaceEditParams, ConfigurationItem, ConfigurationParams, Diagnostic,
    LogMessageParams, MessageActionItem, MessageType, PublishDiagnosticsParams, Registration,
    RegistrationParams, ShowMessageParams, ShowMessageRequestParams, Unregistration,
    UnregistrationParams, Url, WorkspaceEdit,
};
use serde_json::Value;

fn notification<N: Notification>(params: N::Params) -> Outgoing {
    Outgoing::Request(ClientRequest::notification(
        N::METHOD,
        serde_json::to_value(params).unwrap(),
    ))
}

fn request<R: Request>(id: u32, params: R::Params) -> PendingRequest {
    PendingRequest {
        id: Id::Number(id.into()),
        message: Outgoing::Request(ClientRequest::request(
            R::METHOD,
            id,
            serde_json::to_value(params).unwrap(),
        )),
    }
}

fn params_text(message: Outgoing) -> String {
    match message {
        Outgoing::Request(request) => request.params.to_string(),
        Outgoing::Response(_) => panic!("not a request"),
    }
}

#[test]
fn log_message() {
    let (typ, msg) = (MessageType::LOG, "foo bar".to_owned());
    let expected = notification::<LogMessage>(LogMessageParams {
        typ,
        message: msg.clone(),
    });
    let sent = Client::new().log_message(typ, msg);
    assert_eq!(sent, expected);
    assert_eq!(params_text(sent), "{\"message\":\"foo bar\",\"type\":4}");
}

#[test]
fn show_message() {
    let (typ, msg) = (MessageType::LOG, "foo bar".to_owned());
    let expected = notification::<ShowMessage>(ShowMessageParams {
        typ,
        message: msg.clone(),
    });
    assert_eq!(Client::new().show_message(typ, msg), expected);
}

#[test]
fn telemetry_event() {
    let client = Client::new();

    let null = Value::Null;
    let expected = notification::<TelemetryEvent>(null.clone());
    assert_eq!(client.telemetry_event(Ok(null)), Some(expected));

    let array = Value::Array(vec![1.into(), 2.into(), 3.into()]);
    let expected = notification::<TelemetryEvent>(array.clone());
    assert_eq!(client.telemetry_event(Ok(array)), Some(expected));

    let object = Value::Object(serde_json::Map::new());
    let expected = notification::<TelemetryEvent>(object.clone());
    assert_eq!(client.telemetry_event(Ok(object)), Some(expected));

    let other = Value::String("hello".to_owned());
    let wrapped = Value::Array(vec![other.clone()]);
    let expected = notification::<TelemetryEvent>(wrapped);
    assert_eq!(client.telemetry_event(Ok(other)), Some(expected));
}

#[test]
fn telemetry_event_wraps_scalars_only() {
    let client = Client::new();
    let text = |value: Value| params_text(client.telemetry_event(Ok(value)).unwrap());
    assert_eq!(text(Value::String("null".to_owned())), "[\"null\"]");
    assert_eq!(text(Value::String("[".to_owned())), "[\"[\"]");
    assert_eq!(text(Value::Bool(false)), "[false]");
    assert_eq!(text(12.into()), "[12]");
    assert_eq!(text(Value::Array(vec![Value::Null])), "[null]");
    assert_eq!(client.telemetry_event(Err("no JSON".to_owned())), None);
}

#[test]
fn publish_diagnostics() {
    let uri: Url = "file:///path/to/file".parse().unwrap();
    let diagnostics = vec![Diagnostic::new_simple(Default::default(), "example".into())];

    let params = PublishDiagnosticsParams::new(uri.clone(), diagnostics.clone(), None);
    let expected = notification::<PublishDiagnostics>(params);
    let client = Client::new();
    assert_eq!(
        client.publish_diagnostics(State::Initialized, uri.clone(), diagnostics.clone(), None),
        Some(expected)
    );
    let params = PublishDiagnosticsParams::new(uri.clone(), diagnostics.clone(), Some(3));
    let expected = notification::<PublishDiagnostics>(params);
    assert_eq!(
        client.publish_diagnostics(State::ShutDown, uri.clone(), diagnostics.clone(), Some(3)),
        Some(expected)
    );
    for state in [State::Uninitialized, State::Initializing, State::Exited] {
        let sent = client.publish_diagnostics(state, uri.clone(), diagnostics.clone(), None);
        assert_eq!(sent, None);
    }
}

#[test]
fn requests_are_numbered() {
    let open = State::Initialized;
    let mut client = Client::new();

    let actions = Some(vec![MessageActionItem {
        title: "Retry".to_owned(),
        properties: Default::default(),
    }]);
    let expected = request::<ShowMessageRequest>(
        0,
        ShowMessageRequestParams {
            typ: MessageType::ERROR,
            message: "foo".to_owned(),
            actions: actions.clone(),
        },
    );
    let sent = client.show_message_request(MessageType::ERROR, "foo".to_owned(), actions);
    assert_eq!(sent, expected);

    let registrations = vec![Registration {
        id: "1".to_owned(),
        method: "textDocument/hover".to_owned(),
        register_options: Some(Value::Bool(true)),
    }];
    let expected = request::<RegisterCapability>(
        1,
        RegistrationParams { registrations: registrations.clone() },
    );
    assert_eq!(client.register_capability(open, registrations), Ok(expected));

    let unregisterations = vec![Unregistration {
        id: "1".to_owned(),
        method: "textDocument/hover".to_owned(),
    }];
    let expected = request::<UnregisterCapability>(
        2,
        UnregistrationParams { unregisterations: unregisterations.clone() },
    );
    assert_eq!(client.unregister_capability(open, unregisterations), Ok(expected));

    let expected = request::<WorkspaceFoldersRequest>(3, ());
    assert_eq!(client.workspace_folders(open), Ok(expected));

    let items = vec![ConfigurationItem { scope_uri: None, section: Some("a.b".to_owned()) }];
    let expected = request::<WorkspaceConfiguration>(4, ConfigurationParams { items: items.clone() });
    assert_eq!(client.configuration(open, items), Ok(expected));

    let edit = WorkspaceEdit::default();
    let expected = request::<ApplyWorkspaceEdit>(
        5,
        ApplyWorkspaceEditParams { edit: edit.clone(), label: None },
    );
    assert_eq!(client.apply_edit(open, edit), Ok(expected));

    let expected = request::<CodeLensRefresh>(6, ());
    assert_eq!(client.code_lens_refresh(State::ShutDown), Ok(expected));

    let expected = request::<SemanticTokensRefresh>(7, ());
    assert_eq!(client.semantic_tokens_refresh(open), Ok(expected));
}

#[test]
fn requests_wait_for_initialize() {
    let mut client = Client::new();
    for state in [State::Uninitialized, State::Initializing, State::Exited] {
        let refused: Result<PendingRequest> = Err(not_initialized_error());
        assert_eq!(client.register_capability(state, vec![]), refused);
        assert_eq!(client.unregister_capability(state, vec![]), refused);
        assert_eq!(client.workspace_folders(state), refused);
        assert_eq!(client.configuration(state, vec![]), refused);
        assert_eq!(client.apply_edit(state, WorkspaceEdit::default()), refused);
        assert_eq!(client.code_lens_refresh(state), refused);
        assert_eq!(client.semantic_tokens_refresh(state), refused);
        assert_eq!(client.send_custom_request(state, "custom/a", Value::Null), refused);
        assert_eq!(client.send_custom_notification(state, "custom/a", Value::Null), None);
    }
    let sent = client.show_message_request(MessageType::INFO, "foo".to_owned(), None);
    assert_eq!(sent.id, Id::Number(0));
}

#[test]
fn custom_messages() {
    let mut client = Client::new();
    assert_eq!(
        client.send_custom_notification(State::Initialized, "custom/a", Value::Bool(true)),
        Some(Outgoing::Request(ClientRequest {
            method: "custom/a".to_owned(),
            params: Value::Bool(true),
            id: None,
        }))
    );
    assert_eq!(
        client.send_custom_request(State::Initialized, "custom/b", Value::Bool(false)),
        Ok(PendingRequest {
            id: Id::Number(0),
            message: Outgoing::Request(ClientRequest {
                method: "custom/b".to_owned(),
                params: Value::Bool(false),
                id: Some(Id::Number(0)),
            }),
        })
    );
}

#[test]
fn requests_are_resolved() {
    assert_eq!(
        PendingRequest::resolve::<u8>(Delivery::Failed),
        Err(Error::internal_error())
    );
    assert_eq!(PendingRequest::resolve(Delivery::Answered(Ok(Ok(5)))), Ok(5));
    assert_eq!(
        PendingRequest::resolve::<u8>(Delivery::Answered(Err(Error::invalid_request()))),
        Err(Error::invalid_request())
    );
    assert_eq!(
        PendingRequest::resolve::<u8>(Delivery::Answered(Ok(Err("bad".to_owned())))),
        Err(Error::with_message(ErrorCode::ParseError, "bad".to_owned()))
    );
}

#[test]
fn ids_run_past_notifications_and_refusals() {
    let mut client = Client::new();
    for id in 0..5 {
        assert_eq!(client.request_id(), id);
        client.log_message(MessageType::LOG, "foo".to_owned());
        client.send_notification("custom/a", Value::Null);
        client.send_notification_initialized(State::Initialized, "custom/a", Value::Null);
        let refused = client.send_request_initialized(State::Exited, "custom/b", Value::Null);
        assert_eq!(refused, Err(not_initialized_error()));
        assert_eq!(client.request_id(), id);
        let sent = client.send_request("custom/b", Value::Null);
        assert_eq!(
            sent,
            PendingRequest {
                id: Id::Number(id.into()),
                message: Outgoing::Request(ClientRequest::request("custom/b", id, Value::Null)),
            }
        );
    }
    for state in [State::Initialized, State::ShutDown] {
        let id = client.request_id();
        let sent = client.send_request_initialized(state, "custom/b", Value::Null);
        assert_eq!(sent.unwrap().id, Id::Number(id.into()));
    }
}
