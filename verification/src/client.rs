//! The messages that a server sends to the language client.

use crate::json::{array_of, is_array_text, is_object_text, json_text, unit_value};
use crate::jsonrpc::error::{
    not_initialized_error, outcome, Error, ErrorCode, ErrorView, Result,
};
use crate::jsonrpc::message::{ClientRequest, ClientRequestView, Id, Outgoing};
use crate::lsp::{
    action_list, apply_edit_params, apply_edit_text, configuration_params, configuration_text,
    log_message_params, log_message_text, publish_diagnostics_params, publish_diagnostics_text,
    registration_params, registration_text, show_message_params, show_message_request_params,
    show_message_request_text, show_message_text, unregistration_params, unregistration_text,
};
use crate::state::State;
use lsp_types::{
    ConfigurationItem, Diagnostic, MessageActionItem, MessageType, Registration, Unregistration,
    Url, WorkspaceEdit,
};
use serde_json::Value;
use vstd::prelude::*;

verus! {

/// The sending end of the conversation with the language client: writes the
/// messages, and numbers the requests among them.
#[derive(Debug)]
pub struct Client {
    request_id: u32,
}

/// A request that is ready to be sent.
#[derive(Debug, PartialEq)]
pub struct PendingRequest {
    /// The id that the response will carry.
    pub id: Id,
    /// The message to send.
    pub message: Outgoing,
}

/// What became of a request.
#[derive(Debug)]
pub enum Delivery<T> {
    /// It could not be sent.
    Failed,
    /// It was answered. A successful answer was read as a `T`, with a message where
    /// that failed.
    Answered(Result<std::result::Result<T, String>>),
}

/// Whether `message` is a notification for this method, with parameters of this
/// text.
pub open spec fn is_notification(message: Outgoing, method: Seq<char>, params: Seq<char>) -> bool {
    message matches Outgoing::Request(request) && {
        &&& request.method@ == method
        &&& json_text(request.params) == params
        &&& request.id is None
    }
}

/// Whether `pending` is a request for this method, with parameters of this text and
/// this id.
pub open spec fn is_request(
    pending: PendingRequest,
    method: Seq<char>,
    params: Seq<char>,
    id: u32,
) -> bool {
    &&& pending.id == Id::Number(id as i64)
    &&& pending.message matches Outgoing::Request(request) && {
        &&& request.method@ == method
        &&& json_text(request.params) == params
        &&& request.id == Some(Id::Number(id as i64))
    }
}

/// The id of the request after the one with this id.
pub open spec fn following_id(id: u32) -> u32 {
    if id == u32::MAX {
        0
    } else {
        (id + 1) as u32
    }
}

/// Whether `text` is the text of null, an array or an object.
pub open spec fn is_structured(text: Seq<char>) -> bool {
    text == "null"@ || is_array_text(text) || is_object_text(text)
}

/// The text of the parameters of a telemetry event: that of the data, which is put
/// into an array unless it is an array, an object or null.
pub open spec fn telemetry_text(data: Seq<char>) -> Seq<char> {
    if is_structured(data) {
        data
    } else {
        seq!['['] + data + seq![']']
    }
}

/// The result of a request that was delivered so.
pub open spec fn delivered<T>(delivery: Delivery<T>) -> std::result::Result<T, ErrorView> {
    match delivery {
        Delivery::Failed => Err(ErrorView::plain(ErrorCode::InternalError)),
        Delivery::Answered(Err(error)) => Err(error@),
        Delivery::Answered(Ok(Ok(value))) => Ok(value),
        Delivery::Answered(Ok(Err(message))) => Err(
            ErrorView::with_message(ErrorCode::ParseError, message@),
        ),
    }
}

impl PendingRequest {
    /// Tells the result of a request from what became of it.
    pub fn resolve<T>(delivery: Delivery<T>) -> (r: Result<T>)
        ensures
            outcome(r) == delivered(delivery),
            r is Ok <==> (delivery matches Delivery::Answered(Ok(Ok(_)))),
            delivery matches Delivery::Answered(Ok(Ok(value))) ==> r == Ok::<T, Error>(value),
            delivery matches Delivery::Answered(Err(error)) ==> r == Err::<T, Error>(error),
    {
        match delivery {
            Delivery::Failed => Err(Error::internal_error()),
            Delivery::Answered(Err(error)) => Err(error),
            Delivery::Answered(Ok(Ok(value))) => Ok(value),
            Delivery::Answered(Ok(Err(message))) => Err(
                Error::with_message(ErrorCode::ParseError, message),
            ),
        }
    }
}

impl Client {
    /// The id of the next request.
    pub closed spec fn next_id(&self) -> u32 {
        self.request_id
    }

    /// Whether a request for this method, with parameters of this text, was made
    /// ready, which took this client to `after`.
    pub open spec fn sends(
        &self,
        after: &Client,
        pending: PendingRequest,
        method: Seq<char>,
        params: Seq<char>,
    ) -> bool {
        &&& is_request(pending, method, params, self.next_id())
        &&& after.next_id() == following_id(self.next_id())
    }

    /// Whether a request that needs an initialized server was made ready where the
    /// `state` allows it, and refused with the client unchanged where it does not.
    pub open spec fn sends_initialized(
        &self,
        after: &Client,
        state: State,
        result: Result<PendingRequest>,
        method: Seq<char>,
        params: Seq<char>,
    ) -> bool {
        if state.opens_client() {
            result matches Ok(pending) && self.sends(after, pending, method, params)
        } else {
            &&& outcome(result) == Err::<PendingRequest, ErrorView>(ErrorView::not_initialized())
            &&& after == self
        }
    }

    /// A client that has sent nothing.
    pub fn new() -> (r: Client)
        ensures
            r.next_id() == 0,
    {
        Client { request_id: 0 }
    }

    /// The id of the next request.
    pub fn request_id(&self) -> (r: u32)
        ensures
            r == self.next_id(),
    {
        self.request_id
    }

    /// Notifies the client to log a particular message, by `window/logMessage`.
    pub fn log_message(&self, typ: MessageType, message: String) -> (r: Outgoing)
        ensures
            is_notification(r, "window/logMessage"@, log_message_text(typ, message@)),
    {
        self.send_notification("window/logMessage", log_message_params(typ, message))
    }

    /// Notifies the client to display a particular message in the user interface, by
    /// `window/showMessage`.
    pub fn show_message(&self, typ: MessageType, message: String) -> (r: Outgoing)
        ensures
            is_notification(r, "window/showMessage"@, show_message_text(typ, message@)),
    {
        self.send_notification("window/showMessage", show_message_params(typ, message))
    }

    /// Requests the client to display a particular message in the user interface, by
    /// `window/showMessageRequest`.
    ///
    /// Unlike the `show_message` notification, this request can also pass a list of
    /// actions and wait for an answer from the client.
    pub fn show_message_request(
        &mut self,
        typ: MessageType,
        message: String,
        actions: Option<Vec<MessageActionItem>>,
    ) -> (r: PendingRequest)
        ensures
            old(self).sends(
                final(self),
                r,
                "window/showMessageRequest"@,
                show_message_request_text(typ, message@, action_list(actions)),
            ),
    {
        self.send_request(
            "window/showMessageRequest",
            show_message_request_params(typ, message, actions),
        )
    }

    /// Notifies the client to log a telemetry event, by `telemetry/event`.
    ///
    /// Nothing is sent where the data could not be written as JSON.
    pub fn telemetry_event(&self, data: std::result::Result<Value, String>) -> (r: Option<Outgoing>)
        ensures
            match data {
                Ok(value) => r matches Some(message) && {
                    &&& is_notification(
                        message,
                        "telemetry/event"@,
                        telemetry_text(json_text(value)),
                    )
                    &&& is_structured(json_text(value)) ==> message->Request_0.params == value
                },
                Err(_) => r is None,
            },
    {
        match data {
            Err(_) => None,
            Ok(mut value) => {
                if !value.is_null() && !value.is_array() && !value.is_object() {
                    value = array_of(value);
                }
                Some(self.send_notification("telemetry/event", value))
            },
        }
    }

    /// Registers a new capability with the client, by `client/registerCapability`.
    ///
    /// Before the server is initialized, the request is refused with an error of the
    /// code -32002.
    pub fn register_capability(
        &mut self,
        state: State,
        registrations: Vec<Registration>,
    ) -> (r: Result<PendingRequest>)
        ensures
            old(self).sends_initialized(
                final(self),
                state,
                r,
                "client/registerCapability"@,
                registration_text(registrations@),
            ),
    {
        self.send_request_initialized(
            state,
            "client/registerCapability",
            registration_params(registrations),
        )
    }

    /// Unregisters a capability with the client, by `client/unregisterCapability`.
    ///
    /// Before the server is initialized, the request is refused with an error of the
    /// code -32002.
    pub fn unregister_capability(
        &mut self,
        state: State,
        unregisterations: Vec<Unregistration>,
    ) -> (r: Result<PendingRequest>)
        ensures
            old(self).sends_initialized(
                final(self),
                state,
                r,
                "client/unregisterCapability"@,
                unregistration_text(unregisterations@),
            ),
    {
        self.send_request_initialized(
            state,
            "client/unregisterCapability",
            unregistration_params(unregisterations),
        )
    }

    /// Fetches the current open list of workspace folders, by
    /// `workspace/workspaceFolders`.
    ///
    /// Before the server is initialized, the request is refused with an error of the
    /// code -32002.
    pub fn workspace_folders(&mut self, state: State) -> (r: Result<PendingRequest>)
        ensures
            old(self).sends_initialized(
                final(self),
                state,
                r,
                "workspace/workspaceFolders"@,
                "null"@,
            ),
    {
        self.send_request_initialized(state, "workspace/workspaceFolders", unit_value())
    }

    /// Fetches configuration settings from the client, by `workspace/configuration`.
    ///
    /// Before the server is initialized, the request is refused with an error of the
    /// code -32002.
    pub fn configuration(&mut self, state: State, items: Vec<ConfigurationItem>) -> (r: Result<
        PendingRequest,
    >)
        ensures
            old(self).sends_initialized(
                final(self),
                state,
                r,
                "workspace/configuration"@,
                configuration_text(items@),
            ),
    {
        self.send_request_initialized(
            state,
            "workspace/configuration",
            configuration_params(items),
        )
    }

    /// Requests a workspace resource be edited on the client side, by
    /// `workspace/applyEdit`, without a label for the edit.
    ///
    /// Before the server is initialized, the request is refused with an error of the
    /// code -32002.
    pub fn apply_edit(&mut self, state: State, edit: WorkspaceEdit) -> (r: Result<PendingRequest>)
        ensures
            old(self).sends_initialized(
                final(self),
                state,
                r,
                "workspace/applyEdit"@,
                apply_edit_text(None, edit),
            ),
    {
        self.send_request_initialized(state, "workspace/applyEdit", apply_edit_params(None, edit))
    }

    /// Submits validation diagnostics for an open file with the given URI, by
    /// `textDocument/publishDiagnostics`.
    ///
    /// This notification is only sent if the server is initialized.
    pub fn publish_diagnostics(
        &self,
        state: State,
        uri: Url,
        diags: Vec<Diagnostic>,
        version: Option<i32>,
    ) -> (r: Option<Outgoing>)
        ensures
            r is Some <==> state.opens_client(),
            r matches Some(message) ==> is_notification(
                message,
                "textDocument/publishDiagnostics"@,
                publish_diagnostics_text(uri, diags@, version),
            ),
    {
        self.send_notification_initialized(
            state,
            "textDocument/publishDiagnostics",
            publish_diagnostics_params(uri, diags, version),
        )
    }

    /// Asks the client to refresh the code lenses currently shown in editors, by
    /// `workspace/codeLens/refresh`.
    ///
    /// Before the server is initialized, the request is refused with an error of the
    /// code -32002.
    pub fn code_lens_refresh(&mut self, state: State) -> (r: Result<PendingRequest>)
        ensures
            old(self).sends_initialized(
                final(self),
                state,
                r,
                "workspace/codeLens/refresh"@,
                "null"@,
            ),
    {
        self.send_request_initialized(state, "workspace/codeLens/refresh", unit_value())
    }

    /// Asks the client to refresh the editors for which this server provides semantic
    /// tokens, by `workspace/semanticTokens/refresh`.
    ///
    /// Before the server is initialized, the request is refused with an error of the
    /// code -32002.
    pub fn semantic_tokens_refresh(&mut self, state: State) -> (r: Result<PendingRequest>)
        ensures
            old(self).sends_initialized(
                final(self),
                state,
                r,
                "workspace/semanticTokens/refresh"@,
                "null"@,
            ),
    {
        self.send_request_initialized(state, "workspace/semanticTokens/refresh", unit_value())
    }

    /// Sends a custom notification to the client.
    ///
    /// This notification is only sent if the server is initialized.
    pub fn send_custom_notification(&self, state: State, method: &str, params: Value) -> (r: Option<
        Outgoing,
    >)
        ensures
            r is Some <==> state.opens_client(),
            r matches Some(message) ==> message matches Outgoing::Request(request) && request@ == (
            ClientRequestView { method: method@, params, id: None }),
            r matches Some(message) ==> (message matches Outgoing::Request(request)
                && request.method@ == method@ && request.params == params && request.id is None),
    {
        self.send_notification_initialized(state, method, params)
    }

    /// Sends a custom request to the client.
    ///
    /// Before the server is initialized, the request is refused with an error of the
    /// code -32002.
    pub fn send_custom_request(&mut self, state: State, method: &str, params: Value) -> (r: Result<
        PendingRequest,
    >)
        ensures
            old(self).sends_initialized(final(self), state, r, method@, json_text(params)),
            r matches Ok(pending) ==> pending.message matches Outgoing::Request(request)
                && request.params == params,
            r matches Ok(pending) ==> (pending.message matches Outgoing::Request(request)
                && request.method@ == method@ && request.id == Some(pending.id)),
            r is Ok <==> state == State::Initialized || state == State::ShutDown,
            r is Err ==> *final(self) == *old(self),
    {
        self.send_request_initialized(state, method, params)
    }

    /// Writes a notification.
    pub fn send_notification(&self, method: &str, params: Value) -> (r: Outgoing)
        ensures
            r matches Outgoing::Request(request) && request@ == (ClientRequestView {
                method: method@,
                params,
                id: None,
            }),
            r matches Outgoing::Request(request) && request.method@ == method@ && request.params
                == params && request.id is None,
    {
        Outgoing::Request(ClientRequest::notification(method, params))
    }

    /// Writes a notification that needs an initialized server, if there is one.
    pub fn send_notification_initialized(
        &self,
        state: State,
        method: &str,
        params: Value,
    ) -> (r: Option<Outgoing>)
        ensures
            r is Some <==> state.opens_client(),
            r matches Some(message) ==> message matches Outgoing::Request(request) && request@ == (
            ClientRequestView { method: method@, params, id: None }),
            r matches Some(message) ==> (message matches Outgoing::Request(request)
                && request.method@ == method@ && request.params == params && request.id is None),
    {
        if state.is_open() {
            Some(self.send_notification(method, params))
        } else {
            None
        }
    }

    /// Writes a request, and gives it the next id.
    pub fn send_request(&mut self, method: &str, params: Value) -> (r: PendingRequest)
        ensures
            old(self).sends(final(self), r, method@, json_text(params)),
            r.message matches Outgoing::Request(request) && request.params == params,
            r.message matches Outgoing::Request(request) && request.method@ == method@
                && request.id == Some(r.id),
            r.id == Id::Number(old(self).next_id() as i64),
    {
        let id = self.request_id;
        self.request_id = id.wrapping_add(1);
        PendingRequest {
            id: Id::Number(id as i64),
            message: Outgoing::Request(ClientRequest::request(method, id, params)),
        }
    }

    /// Writes a request that needs an initialized server, if there is one.
    pub fn send_request_initialized(&mut self, state: State, method: &str, params: Value) -> (r: Result<
        PendingRequest,
    >)
        ensures
            old(self).sends_initialized(final(self), state, r, method@, json_text(params)),
            r matches Ok(pending) ==> pending.message matches Outgoing::Request(request)
                && request.params == params,
            r matches Ok(pending) ==> (pending.message matches Outgoing::Request(request)
                && request.method@ == method@ && request.id == Some(pending.id)),
            r is Ok <==> state == State::Initialized || state == State::ShutDown,
            r is Err ==> *final(self) == *old(self),
    {
        if state.is_open() {
            Ok(self.send_request(method, params))
        } else {
            Err(not_initialized_error())
        }
    }
}

/// How many of these steps made a request ready.
pub open spec fn requests_sent(steps: Seq<Option<PendingRequest>>) -> nat
    decreases steps.len(),
{
    if steps.len() == 0 {
        0
    } else if steps.last() is Some {
        requests_sent(steps.drop_last()) + 1
    } else {
        requests_sent(steps.drop_last())
    }
}

/// Whether a new client went through these states: each step made a request ready, for
/// its method and with its parameters, or else left the client as it was, as
/// notifications and refused requests do.
pub open spec fn is_history(
    clients: Seq<Client>,
    steps: Seq<Option<PendingRequest>>,
    methods: Seq<Seq<char>>,
    params: Seq<Seq<char>>,
) -> bool {
    &&& clients.len() == steps.len() + 1
    &&& clients[0].next_id() == 0
    &&& forall|k: int|
        #![trigger steps[k]]
        0 <= k < steps.len() ==> match steps[k] {
            Some(pending) => clients[k].sends(&clients[k + 1], pending, methods[k], params[k]),
            None => clients[k + 1].next_id() == clients[k].next_id(),
        }
}

/// Along the history of a client, the next id is told by the number of requests.
proof fn lemma_next_id(
    clients: Seq<Client>,
    steps: Seq<Option<PendingRequest>>,
    methods: Seq<Seq<char>>,
    params: Seq<Seq<char>>,
    i: int,
)
    requires
        is_history(clients, steps, methods, params),
        0 <= i <= steps.len(),
    ensures
        clients[i].next_id() == requests_sent(steps.take(i)) % 0x1_0000_0000,
    decreases i,
{
    if i > 0 {
        lemma_next_id(clients, steps, methods, params, i - 1);
        assert(steps.take(i).drop_last() =~= steps.take(i - 1));
        assert(steps.take(i).last() == steps[i - 1]);
    }
}

/// Requests are numbered: the one before which a client sent `n` others, in all, has
/// the id `n`, counted modulo 2^32. Notifications and refused requests use up no id.
pub proof fn law_request_ids(
    clients: Seq<Client>,
    steps: Seq<Option<PendingRequest>>,
    methods: Seq<Seq<char>>,
    params: Seq<Seq<char>>,
    i: int,
)
    requires
        is_history(clients, steps, methods, params),
        0 <= i < steps.len(),
        steps[i] is Some,
    ensures
        is_request(
            steps[i]->0,
            methods[i],
            params[i],
            (requests_sent(steps.take(i)) % 0x1_0000_0000) as u32,
        ),
        steps[i]->0.id == Id::Number((requests_sent(steps.take(i)) % 0x1_0000_0000) as i64),
        clients[i].next_id() == requests_sent(steps.take(i)) % 0x1_0000_0000,
        clients[i + 1].next_id() == (requests_sent(steps.take(i)) + 1) % 0x1_0000_0000,
{
    lemma_next_id(clients, steps, methods, params, i);
}

/// Where each step makes a request ready, there are as many requests as steps.
proof fn lemma_all_sent(steps: Seq<Option<PendingRequest>>)
    requires
        forall|k: int| 0 <= k < steps.len() ==> #[trigger] steps[k] is Some,
    ensures
        requests_sent(steps) == steps.len(),
    decreases steps.len(),
{
    if steps.len() > 0 {
        lemma_all_sent(steps.drop_last());
    }
}

/// The requests that a client makes ready one after the other have the ids 0, 1, 2 and
/// so on, counted modulo 2^32.
pub proof fn law_ids_run(
    clients: Seq<Client>,
    requests: Seq<PendingRequest>,
    methods: Seq<Seq<char>>,
    params: Seq<Seq<char>>,
    n: int,
)
    requires
        clients.len() == requests.len() + 1,
        clients[0].next_id() == 0,
        forall|k: int|
            0 <= k < requests.len() ==> clients[k].sends(
                &clients[k + 1],
                #[trigger] requests[k],
                methods[k],
                params[k],
            ),
        0 <= n < requests.len(),
    ensures
        requests[n].id == Id::Number((n % 0x1_0000_0000) as i64),
        is_request(requests[n], methods[n], params[n], (n % 0x1_0000_0000) as u32),
{
    let steps = requests.map_values(|pending: PendingRequest| Some(pending));
    assert forall|k: int|
        #![trigger steps[k]]
        0 <= k < steps.len() implies match steps[k] {
        Some(pending) => clients[k].sends(&clients[k + 1], pending, methods[k], params[k]),
        None => clients[k + 1].next_id() == clients[k].next_id(),
    } by {
        assert(steps[k] == Some(requests[k]));
    }
    lemma_all_sent(steps.take(n));
    law_request_ids(clients, steps, methods, params, n);
}

/// Requests are told apart by their ids: of the requests that a client makes ready
/// one after the other, two have the same id only if they are 2^32 or more apart.
pub proof fn law_ids_differ(
    clients: Seq<Client>,
    requests: Seq<PendingRequest>,
    methods: Seq<Seq<char>>,
    params: Seq<Seq<char>>,
    i: int,
    j: int,
)
    requires
        clients.len() == requests.len() + 1,
        clients[0].next_id() == 0,
        forall|k: int|
            0 <= k < requests.len() ==> clients[k].sends(
                &clients[k + 1],
                #[trigger] requests[k],
                methods[k],
                params[k],
            ),
        0 <= i < j < requests.len(),
        j < i + 0x1_0000_0000,
    ensures
        requests[i].id != requests[j].id,
{
    law_ids_run(clients, requests, methods, params, i);
    law_ids_run(clients, requests, methods, params, j);
}

/// A request that needs an initialized server is sent as any other in the states
/// `Initialized` and `ShutDown`. In the other three it is refused with an error of the
/// code -32002, nothing is sent, and the client, with its next id, stays as it is.
pub proof fn law_requests_wait_for_initialize(
    before: Client,
    after: Client,
    state: State,
    result: Result<PendingRequest>,
    method: Seq<char>,
    params: Seq<char>,
)
    requires
        before.sends_initialized(&after, state, result, method, params),
    ensures
        state == State::Initialized || state == State::ShutDown ==> (result matches Ok(pending)
            && before.sends(&after, pending, method, params)),
        state == State::Uninitialized || state == State::Initializing || state == State::Exited
            ==> {
            &&& result matches Err(error) && error@ == ErrorView::not_initialized()
            &&& ErrorView::not_initialized().code.number() == -32002
            &&& after == before
            &&& after.next_id() == before.next_id()
        },
{
}

/// The parameters of a telemetry event are always null, an array or an object; and
/// such data is sent as it is.
pub proof fn law_telemetry_is_structured(data: Seq<char>)
    ensures
        is_structured(telemetry_text(data)),
        is_structured(data) ==> telemetry_text(data) == data,
{
}

/// A telemetry event is sent if and only if its data could be written as JSON. Null,
/// arrays and objects are sent as they are, any other data as the one element of an
/// array.
pub proof fn law_telemetry_events(
    client: &Client,
    data: std::result::Result<Value, String>,
    sent: Option<Outgoing>,
)
    requires
        call_ensures(Client::telemetry_event, (client, data), sent),
    ensures
        sent is Some <==> data is Ok,
        data matches Ok(value) ==> (sent matches Some(Outgoing::Request(request)) && {
            let text = json_text(value);
            &&& request.id is None
            &&& request.method@ == "telemetry/event"@
            &&& text == "null"@ || (text.len() > 0 && (text[0] == '[' || text[0] == '{'))
                ==> request.params == value
            &&& text != "null"@ && !(text.len() > 0 && (text[0] == '[' || text[0] == '{'))
                ==> json_text(request.params) == seq!['['] + text + seq![']']
        }),
{
}

/// The caller of a request gets the answer of the client: the value as it was read or
/// the error as the client sent it, with its code, message and data. Where the answer
/// could not be read that is a parse error with the message of the reader, and where the
/// request could not be sent, an internal error.
pub proof fn law_answers_reach_the_caller<T>(delivery: Delivery<T>, result: Result<T>)
    requires
        call_ensures(PendingRequest::resolve::<T>, (delivery,), result),
    ensures
        match delivery {
            Delivery::Answered(Ok(Ok(value))) => result matches Ok(given) && given == value,
            Delivery::Answered(Err(sent)) => result matches Err(error) && {
                &&& error.code == sent.code
                &&& error.message@ == sent.message@
                &&& error.data == sent.data
            },
            Delivery::Answered(Ok(Err(message))) => result matches Err(error) && {
                &&& error.code == ErrorCode::ParseError
                &&& error.message@ == message@
                &&& error.data is None
            },
            Delivery::Failed => result matches Err(error) && {
                &&& error.code == ErrorCode::InternalError
                &&& error.message@ == "Internal error"@
                &&& error.data is None
            },
        },
{
}

/// A request that was made ready carries its method, its parameters and one id, the
/// same that is waited for; and the next request has the next id.
pub proof fn law_requests_are_whole(
    before: Client,
    after: Client,
    pending: PendingRequest,
    method: Seq<char>,
    params: Seq<char>,
)
    requires
        before.sends(&after, pending, method, params),
    ensures
        pending.message matches Outgoing::Request(request) && {
            &&& request.method@ == method
            &&& json_text(request.params) == params
            &&& request.id == Some(pending.id)
        },
        pending.id == Id::Number(before.next_id() as i64),
        after.next_id() == (before.next_id() + 1) % 0x1_0000_0000,
{
}

/// A notification carries its method and its parameters, and no id.
pub proof fn law_notifications_are_whole(
    message: Outgoing,
    method: Seq<char>,
    params: Seq<char>,
)
    requires
        is_notification(message, method, params),
    ensures
        message matches Outgoing::Request(request) && {
            &&& request.method@ == method
            &&& json_text(request.params) == params
            &&& request.id is None
        },
{
}

/// A notification that needs an initialized server is sent, as it is, in the states
/// `Initialized` and `ShutDown`, and in no other.
pub proof fn law_notifications_wait_for_initialize(
    client: &Client,
    state: State,
    method: &str,
    params: Value,
    sent: Option<Outgoing>,
)
    requires
        call_ensures(Client::send_custom_notification, (client, state, method, params), sent),
    ensures
        sent is Some <==> state == State::Initialized || state == State::ShutDown,
        sent matches Some(message) ==> (message matches Outgoing::Request(request) && {
            &&& request.method@ == method@
            &&& request.params == params
            &&& request.id is None
        }),
{
}

/// Diagnostics are published in the states `Initialized` and `ShutDown`, and in no
/// other, for the file and the version that are given.
pub proof fn law_diagnostics_wait_for_initialize(
    client: &Client,
    state: State,
    uri: Url,
    diagnostics: Vec<Diagnostic>,
    version: Option<i32>,
    sent: Option<Outgoing>,
)
    requires
        call_ensures(
            Client::publish_diagnostics,
            (client, state, uri, diagnostics, version),
            sent,
        ),
    ensures
        sent is Some <==> state == State::Initialized || state == State::ShutDown,
        sent matches Some(message) ==> (message matches Outgoing::Request(request) && {
            &&& request.method@ == "textDocument/publishDiagnostics"@
            &&& json_text(request.params) == publish_diagnostics_text(uri, diagnostics@, version)
            &&& request.id is None
        }),
{
}

/// Messages to log and to show go out with the text and the type that are given.
pub proof fn law_messages_go_out(
    client: &Client,
    typ: MessageType,
    text: String,
    logged: Outgoing,
    shown: Outgoing,
)
    requires
        call_ensures(Client::log_message, (client, typ, text), logged),
        call_ensures(Client::show_message, (client, typ, text), shown),
    ensures
        logged matches Outgoing::Request(request) && {
            &&& request.method@ == "window/logMessage"@
            &&& json_text(request.params) == log_message_text(typ, text@)
            &&& request.id is None
        },
        shown matches Outgoing::Request(request) && {
            &&& request.method@ == "window/showMessage"@
            &&& json_text(request.params) == show_message_text(typ, text@)
            &&& request.id is None
        },
{
}

/// The actions of a message are all handed on, in their order, and none where there are
/// none.
pub proof fn law_actions_are_kept(actions: Option<Vec<MessageActionItem>>)
    ensures
        action_list(actions) is Some <==> actions is Some,
        actions matches Some(given) ==> action_list(actions)->0 == given@,
{
}

} // verus!
