use vstd::prelude::*;

verus! {

/// What a WebSocket session does after handling one client message.
#[derive(Debug, Clone, Copy, PartialEq, Eq)]
pub enum SessionUpdate {
    /// The client closed the connection: the session ends.
    Close,
    /// The session goes on with this authorization; on becoming authorized it subscribes to
    /// the event bus afresh, so that events emitted before the hello are never pushed.
    Continue { authorized: bool, resubscribe: bool },
}

/// The session's next state, given whether it was authorized and what handling the message
/// gave: `None` when the connection closed, else whether the session is now authorized.
pub fn session_update(authorized: bool, handled: Option<bool>) -> (update: SessionUpdate)
    ensures
        update == session_update_spec(authorized, handled),
{
    match handled {
        None => SessionUpdate::Close,
        Some(now) => SessionUpdate::Continue { authorized: now, resubscribe: !authorized && now },
    }
}

/// A session that becomes authorized subscribes afresh exactly once: a later message that
/// keeps it authorized does not subscribe again, and an unauthorized session never does.
pub proof fn lemma_resubscribe_once_on_authorization(first: Option<bool>, second: Option<bool>)
    ensures
        first == Some(true) && second == Some(true) ==> (match (
            session_update_spec(false, first),
            session_update_spec(true, second),
        ) {
            (SessionUpdate::Continue { resubscribe: r1, .. }, SessionUpdate::Continue { resubscribe: r2, .. }) => r1
                && !r2,
            _ => false,
        }),
        forall|authorized: bool|
            #![trigger session_update_spec(authorized, Some(false))]
            session_update_spec(authorized, Some(false)) matches SessionUpdate::Continue { resubscribe, .. }
                && !resubscribe,
{
}

/// The update `session_update` computes.
pub open spec fn session_update_spec(authorized: bool, handled: Option<bool>) -> SessionUpdate {
    match handled {
        None => SessionUpdate::Close,
        Some(now) => SessionUpdate::Continue { authorized: now, resubscribe: !authorized && now },
    }
}

} // verus!
