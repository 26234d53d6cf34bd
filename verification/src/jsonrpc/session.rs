//! What holds of a server over a whole session.

use super::error::{ErrorCode, ErrorView};
use super::message::{refusal, Id, ResponseView};
use super::router::{finished, registered, started, StepView};
use crate::state::State;
use vstd::prelude::*;

verus! {

/// Something that happens to a server.
pub enum Event<P> {
    /// A message arrived that has a handler; its parameters were decoded with
    /// this result.
    Received {
        method: Seq<char>,
        id: Option<Id>,
        decoded: std::result::Result<P, ErrorView>,
    },
    /// A handler that was invoked is done, and its message was answered so.
    Finished { method: Seq<char>, response: Option<ResponseView> },
}

/// The state once `set`, if there is one, was stored.
pub open spec fn stored(set: Option<State>, state: State) -> State {
    match set {
        Some(state) => state,
        None => state,
    }
}

/// The state after one event.
pub open spec fn after_event<P>(state: State, event: Event<P>) -> State {
    match event {
        Event::Received { method, id, decoded } => stored(
            started(method, id, decoded, state).0,
            state,
        ),
        Event::Finished { method, response } => stored(finished(method, response), state),
    }
}

/// The state of a new server after these events.
pub open spec fn state_after<P>(events: Seq<Event<P>>) -> State
    decreases events.len(),
{
    if events.len() == 0 {
        State::Uninitialized
    } else {
        after_event(state_after(events.drop_last()), events.last())
    }
}

/// Whether the event is the success of an `initialize` request.
pub open spec fn initializes<P>(event: Event<P>) -> bool {
    event matches Event::Finished { method, response } && method == "initialize"@ && (
    response matches Some(response) && response.result is Ok)
}

/// Whether a server in this state invokes a handler on the event.
pub open spec fn invokes<P>(state: State, event: Event<P>) -> bool {
    event matches Event::Received { method, id, decoded } && started(
        method,
        id,
        decoded,
        state,
    ).1 is Invoke
}

/// How many `initialize` handlers run after these events.
pub open spec fn initializing<P>(events: Seq<Event<P>>) -> int
    decreases events.len(),
{
    if events.len() == 0 {
        0
    } else {
        let before = initializing(events.drop_last());
        match events.last() {
            Event::Received { method, .. } => if method == "initialize"@ && invokes(
                state_after(events.drop_last()),
                events.last(),
            ) {
                before + 1
            } else {
                before
            },
            Event::Finished { method, .. } => if method == "initialize"@ {
                before - 1
            } else {
                before
            },
        }
    }
}

/// Whether no `initialize` handler finishes that was not invoked.
pub open spec fn orderly<P>(events: Seq<Event<P>>) -> bool
    decreases events.len(),
{
    events.len() == 0 || {
        &&& orderly(events.drop_last())
        &&& initializing(events) >= 0
    }
}

/// A server that is initialized, or was shut down, once answered an `initialize`
/// request with success; so messages that need an initialized server go to the client
/// only after that.
pub proof fn law_client_waits_for_initialize<P>(events: Seq<Event<P>>)
    requires
        state_after(events).opens_client(),
    ensures
        exists|i: int| 0 <= i < events.len() && initializes(#[trigger] events[i]),
    decreases events.len(),
{
    if events.len() > 0 {
        if initializes(events.last()) {
            assert(initializes(events[events.len() - 1]));
        } else {
            let before = events.drop_last();
            law_client_waits_for_initialize(before);
            let i = choose|i: int| 0 <= i < before.len() && initializes(#[trigger] before[i]);
            assert(initializes(events[i]));
        }
    }
}

/// No handler but that of `initialize` is ever invoked before an `initialize`
/// request was answered with success.
pub proof fn law_handlers_wait_for_initialize<P>(events: Seq<Event<P>>, event: Event<P>)
    requires
        invokes(state_after(events), event),
        event->Received_method != "initialize"@,
    ensures
        exists|i: int| 0 <= i < events.len() && initializes(#[trigger] events[i]),
{
    law_client_waits_for_initialize(events);
}

/// Every change of the state has one of these causes, and each of these has its effect:
/// the receipt of a readable `initialize` by a new server, of a readable `shutdown` by an
/// initialized one, and of a readable `exit` by any; and the end of an `initialize`
/// handler.
pub proof fn law_state_changes<P>(state: State, event: Event<P>)
    ensures
        match event {
            Event::Received { method, id: _, decoded } => after_event(state, event) == (
            if decoded is Ok && method == "exit"@ {
                State::Exited
            } else if decoded is Ok && method == "initialize"@ && state == State::Uninitialized {
                State::Initializing
            } else if decoded is Ok && method == "shutdown"@ && state == State::Initialized {
                State::ShutDown
            } else {
                state
            }),
            Event::Finished { method, response } => after_event(state, event) == (if method
                != "initialize"@ {
                state
            } else if response is Some && response->0.result is Ok {
                State::Initialized
            } else {
                State::Uninitialized
            }),
        },
{
    reveal_strlit("initialize");
    reveal_strlit("shutdown");
    reveal_strlit("exit");
    assert("initialize"@.len() == 10 && "shutdown"@.len() == 8 && "exit"@.len() == 4);
}

/// A handler is invoked on a readable `initialize` by a new server, and on every other
/// readable message but `exit` by an initialized one; on nothing else.
pub proof fn law_invocations<P>(state: State, event: Event<P>)
    ensures
        invokes(state, event) <==> (event matches Event::Received { method, id: _, decoded } && {
            &&& decoded is Ok
            &&& {
                ||| method == "initialize"@ && state == State::Uninitialized
                ||| method != "initialize"@ && method != "exit"@ && state == State::Initialized
            }
        }),
{
    reveal_strlit("initialize");
    reveal_strlit("exit");
    assert("initialize"@.len() == 10 && "exit"@.len() == 4);
}

/// Whether the event is the receipt of a readable message for this method.
pub open spec fn receives<P>(event: Event<P>, asked: Seq<char>) -> bool {
    event matches Event::Received { method, id: _, decoded } && decoded is Ok && method == asked
}

/// A server is shut down only if a `shutdown` reached it while it was initialized.
pub proof fn law_shutdown_was_asked<P>(events: Seq<Event<P>>)
    requires
        state_after(events) == State::ShutDown,
    ensures
        exists|i: int|
            {
                &&& 0 <= i < events.len()
                &&& receives(#[trigger] events[i], "shutdown"@)
                &&& state_after(events.take(i)) == State::Initialized
            },
    decreases events.len(),
{
    if events.len() > 0 {
        let before = events.drop_last();
        law_state_changes(state_after(before), events.last());
        if state_after(before) == State::ShutDown {
            law_shutdown_was_asked(before);
            let i = choose|i: int|
                {
                    &&& 0 <= i < before.len()
                    &&& receives(#[trigger] before[i], "shutdown"@)
                    &&& state_after(before.take(i)) == State::Initialized
                };
            assert(events[i] == before[i]);
            assert(events.take(i) =~= before.take(i));
        } else {
            let i = events.len() - 1;
            assert(receives(events[i], "shutdown"@));
            assert(events.take(i) =~= before);
        }
    }
}

/// A server has stopped only if an `exit` reached it.
pub proof fn law_exit_was_asked<P>(events: Seq<Event<P>>)
    requires
        state_after(events) == State::Exited,
    ensures
        exists|i: int| 0 <= i < events.len() && receives(#[trigger] events[i], "exit"@),
    decreases events.len(),
{
    if events.len() > 0 {
        let before = events.drop_last();
        law_state_changes(state_after(before), events.last());
        if state_after(before) == State::Exited {
            law_exit_was_asked(before);
            let i = choose|i: int|
                0 <= i < before.len() && receives(#[trigger] before[i], "exit"@);
            assert(events[i] == before[i]);
        } else {
            assert(receives(events[events.len() - 1], "exit"@));
        }
    }
}

/// An initialized server stays so over any messages that are neither `shutdown` nor
/// `exit`, and over the end of any handlers but that of `initialize`.
pub proof fn law_initialized_session_goes_on<P>(events: Seq<Event<P>>, later: Seq<Event<P>>)
    requires
        state_after(events) == State::Initialized,
        forall|i: int|
            0 <= i < later.len() ==> {
                &&& !receives(#[trigger] later[i], "shutdown"@)
                &&& !receives(later[i], "exit"@)
                &&& later[i] matches Event::Finished { method, response: _ } ==> method
                    != "initialize"@
            },
    ensures
        state_after(events + later) == State::Initialized,
    decreases later.len(),
{
    if later.len() == 0 {
        assert(events + later =~= events);
    } else {
        let init = later.drop_last();
        assert((events + later).drop_last() =~= events + init);
        assert forall|i: int| 0 <= i < init.len() implies {
            &&& !receives(#[trigger] init[i], "shutdown"@)
            &&& !receives(init[i], "exit"@)
            &&& init[i] matches Event::Finished { method, response: _ } ==> method != "initialize"@
        } by {
            assert(init[i] == later[i]);
        }
        law_initialized_session_goes_on(events, init);
        assert(later[later.len() - 1] == later.last());
        law_state_changes(State::Initialized, later.last());
    }
}

/// What the state and the number of running `initialize` handlers say of each
/// other.
proof fn lemma_initializing<P>(events: Seq<Event<P>>)
    requires
        orderly(events),
    ensures
        0 <= initializing(events) <= 1,
        initializing(events) == 1 ==> state_after(events) == State::Initializing || state_after(
            events,
        ) == State::Exited,
        initializing(events) == 0 ==> state_after(events) != State::Initializing,
    decreases events.len(),
{
    if events.len() > 0 {
        lemma_initializing(events.drop_last());
    }
}

/// At most one `initialize` handler runs at any time.
pub proof fn law_one_initialize_at_a_time<P>(events: Seq<Event<P>>)
    requires
        orderly(events),
    ensures
        0 <= initializing(events) <= 1,
{
    lemma_initializing(events);
}

/// No handler is invoked while an `initialize` handler runs.
pub proof fn law_initialize_runs_alone<P>(events: Seq<Event<P>>, event: Event<P>)
    requires
        orderly(events),
        invokes(state_after(events), event),
    ensures
        initializing(events) == 0,
{
    lemma_initializing(events);
}

/// A message that is not passed to its handler is answered under its own id, and
/// with an error; a notification is not answered.
pub proof fn law_refusals_are_errors<P>(
    method: Seq<char>,
    id: Option<Id>,
    decoded: std::result::Result<P, ErrorView>,
    state: State,
)
    ensures
        started(method, id, decoded, state).1 matches StepView::Reply(Some(response)) ==> {
            &&& id == Some(response.id)
            &&& response.result is Err
        },
        id is None ==> (started(method, id, decoded, state).1 matches StepView::Reply(response)
            ==> response is None),
        id is Some && method != "exit"@ ==> (started(method, id, decoded, state).1 matches StepView::Reply(response)
            ==> response is Some),
{
}

/// Parameters that cannot be read are answered with what is wrong with them,
/// whatever the state, which stays as it is.
pub proof fn law_unreadable_params<P>(
    method: Seq<char>,
    id: Option<Id>,
    error: ErrorView,
    state: State,
)
    ensures
        started::<P>(method, id, Err(error), state) == (
            None::<State>,
            StepView::<P>::Reply(refusal(id, error)),
        ),
{
}

/// Before it is initialized, a server refuses all but `initialize` and `exit`, with
/// an error of the code -32002, and stays in its state.
pub proof fn law_not_initialized<P>(method: Seq<char>, id: Option<Id>, params: P, state: State)
    requires
        state == State::Uninitialized || state == State::Initializing,
        method != "initialize"@,
        method != "exit"@,
    ensures
        started(method, id, Ok(params), state) == (
            None::<State>,
            StepView::<P>::Reply(refusal(id, ErrorView::not_initialized())),
        ),
        ErrorView::not_initialized().code.number() == -32002,
{
}

/// An `initialize` request is passed on by a new server alone; any other refuses it
/// as an invalid request, and stays in its state.
pub proof fn law_duplicate_initialize<P>(id: Option<Id>, params: P, state: State)
    ensures
        state == State::Uninitialized ==> started("initialize"@, id, Ok(params), state) == (
            Some(State::Initializing),
            StepView::Invoke { method: "initialize"@, id, params },
        ),
        state != State::Uninitialized ==> started("initialize"@, id, Ok(params), state) == (
            None::<State>,
            StepView::<P>::Reply(refusal(id, ErrorView::plain(ErrorCode::InvalidRequest))),
        ),
{
}

/// After an `initialize` request that failed another one is passed on; after one
/// that succeeded every method but `initialize` and `exit` is.
pub proof fn law_initialize_decides<P>(
    response: Option<ResponseView>,
    method: Seq<char>,
    id: Option<Id>,
    params: P,
)
    ensures
        ({
            let succeeded = response is Some && response->0.result is Ok;
            let state = stored(finished("initialize"@, response), State::Initializing);
            &&& state == if succeeded {
                State::Initialized
            } else {
                State::Uninitialized
            }
            &&& !succeeded ==> started("initialize"@, id, Ok(params), state).1 is Invoke
            &&& succeeded && method != "initialize"@ && method != "exit"@ ==> started(
                method,
                id,
                Ok(params),
                state,
            ).1 == (StepView::Invoke { method, id, params })
        }),
{
}

/// After `shutdown` every method but `exit` is refused as an invalid request.
pub proof fn law_shutdown<P>(
    shutdown_id: Option<Id>,
    method: Seq<char>,
    id: Option<Id>,
    params: P,
)
    requires
        method != "exit"@,
    ensures
        ({
            let state = stored(
                started("shutdown"@, shutdown_id, Ok(params), State::Initialized).0,
                State::Initialized,
            );
            &&& state == State::ShutDown
            &&& started(method, id, Ok(params), state) == (
                None::<State>,
                StepView::<P>::Reply(refusal(id, ErrorView::plain(ErrorCode::InvalidRequest))),
            )
        }),
{
    reveal_strlit("shutdown");
    reveal_strlit("initialize");
    reveal_strlit("exit");
    assert("shutdown"@.len() == 8 && "initialize"@.len() == 10 && "exit"@.len() == 4);
}

/// `exit` stops the server from every state, and is not answered.
pub proof fn law_exit<P>(id: Option<Id>, params: P, state: State)
    ensures
        started("exit"@, id, Ok(params), state) == (
            Some(State::Exited),
            StepView::<P>::Reply(None),
        ),
{
    reveal_strlit("initialize");
    reveal_strlit("exit");
    assert("initialize"@.len() == 10 && "exit"@.len() == 4);
}

/// A server that stopped invokes no handler; and nothing starts it again but the end
/// of an `initialize` handler that still ran when it stopped.
pub proof fn law_exit_is_final<P>(event: Event<P>)
    requires
        event matches Event::Finished { method, .. } ==> method != "initialize"@,
    ensures
        !invokes(State::Exited, event),
        after_event(State::Exited, event) == State::Exited,
{
}

/// A server that stopped while no `initialize` handler ran stays so, whatever
/// happens to it afterwards, and invokes no handler any more.
pub proof fn law_exit_ends_the_session<P>(
    events: Seq<Event<P>>,
    later: Seq<Event<P>>,
    event: Event<P>,
)
    requires
        orderly(events + later),
        state_after(events) == State::Exited,
        initializing(events) == 0,
    ensures
        state_after(events + later) == State::Exited,
        initializing(events + later) == 0,
        !invokes(state_after(events + later), event),
    decreases later.len(),
{
    if later.len() == 0 {
        assert(events + later =~= events);
    } else {
        assert((events + later).drop_last() =~= events + later.drop_last());
        law_exit_ends_the_session(events, later.drop_last(), event);
    }
}

/// A name has a handler once one was registered for it, and keeps its first; the
/// other names keep theirs.
pub proof fn law_first_handler_stays<H>(
    methods: Map<Seq<char>, H>,
    name: Seq<char>,
    first: H,
    second: H,
    other: Seq<char>,
)
    ensures
        registered(methods, name, first).contains_key(name),
        !methods.contains_key(name) ==> registered(methods, name, first)[name] == first,
        registered(registered(methods, name, first), name, second) == registered(
            methods,
            name,
            first,
        ),
        methods.contains_key(other) ==> registered(methods, name, first).contains_key(other)
            && registered(methods, name, first)[other] == methods[other],
        other != name && !methods.contains_key(other) ==> !registered(
            methods,
            name,
            first,
        ).contains_key(other),
{
}

/// The order in which the handlers of different methods are registered makes no
/// difference.
pub proof fn law_registration_order<H>(
    methods: Map<Seq<char>, H>,
    name: Seq<char>,
    handler: H,
    other: Seq<char>,
    other_handler: H,
)
    requires
        name != other,
    ensures
        registered(registered(methods, name, handler), other, other_handler) == registered(
            registered(methods, other, other_handler),
            name,
            handler,
        ),
{
}

} // verus!
