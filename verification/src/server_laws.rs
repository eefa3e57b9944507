//! What holds of every server, whatever its accept loop is handed.

use crate::server::{
    accept_warning, connection_step, Accept, Acceptor, ConnectionAction, ConnectionEvent,
    ConnectionPhase, TurnKind,
};
use vstd::prelude::*;

verus! {

/// The state of the accept loop after the given waits, taken in order.
pub open spec fn turns(state: Acceptor, accepts: Seq<Accept>) -> Acceptor
    decreases accepts.len(),
{
    if accepts.len() == 0 {
        state
    } else {
        turns(state, accepts.drop_last()).turn(accepts.last()).0
    }
}

/// What the last of the given waits came to.
pub open spec fn last_turn(state: Acceptor, accepts: Seq<Accept>) -> TurnKind
    recommends
        accepts.len() > 0,
{
    turns(state, accepts.drop_last()).turn(accepts.last()).1
}

/// The number of connections among the given waits.
pub open spec fn connections(accepts: Seq<Accept>) -> nat
    decreases accepts.len(),
{
    if accepts.len() == 0 {
        0
    } else if accepts.last() is Connection {
        connections(accepts.drop_last()) + 1
    } else {
        connections(accepts.drop_last())
    }
}

/// A server that has stopped stays stopped and takes no connection.
pub proof fn stopped_is_final(state: Acceptor, accepts: Seq<Accept>)
    requires
        state.stopped,
    ensures
        turns(state, accepts) == state,
        accepts.len() > 0 ==> last_turn(state, accepts) == TurnKind::Ignore,
    decreases accepts.len(),
{
    if accepts.len() > 0 {
        stopped_is_final(state, accepts.drop_last());
    }
}

/// Once the shutdown signal has fired the server takes no connection any
/// more: whatever the accept loop is handed after it, the answer is to do
/// nothing, and the count of connections stands.
pub proof fn cancellation_stops_accepting(state: Acceptor, later: Seq<Accept>)
    requires
        later.len() > 0,
    ensures
        ({
            let after = state.turn(Accept::Cancelled).0;
            &&& after.stopped
            &&& after.taken == state.taken
            &&& turns(after, later) == after
            &&& last_turn(after, later) == TurnKind::Ignore
        }),
{
    stopped_is_final(state.turn(Accept::Cancelled).0, later);
}

/// True if none of the given waits ended with the shutdown signal.
pub open spec fn none_cancelled(accepts: Seq<Accept>) -> bool {
    forall|i: int| 0 <= i < accepts.len() ==> !(#[trigger] accepts[i] is Cancelled)
}

/// A failure to accept a connection is contained: the server reports it and
/// goes on as it was, and the connection that comes next is served with the
/// id that was next before.
pub proof fn failed_accept_is_contained(state: Acceptor, failed: Accept, next: Accept)
    requires
        !state.stopped,
        failed is Failed,
        next is Connection,
    ensures
        state.turn(failed).0 == state,
        state.turn(failed).1 == (TurnKind::Report { warning: accept_warning(failed->error@) }),
        state.turn(failed).0.turn(next).1 == (TurnKind::Serve {
            client_ip: next->client_ip,
            id: state.taken,
        }),
{
}

/// Nothing but the shutdown signal stops the server: as long as the signal
/// has not fired the server runs, however many connections it took and
/// however many it failed to accept.
pub proof fn server_runs_until_cancelled(state: Acceptor, accepts: Seq<Accept>)
    requires
        !state.stopped,
        none_cancelled(accepts),
    ensures
        !turns(state, accepts).stopped,
        turns(state, accepts).taken == state.taken + connections(accepts),
    decreases accepts.len(),
{
    if accepts.len() > 0 {
        let earlier = accepts.drop_last();
        assert forall|i: int| 0 <= i < earlier.len() implies !(#[trigger] earlier[i] is Cancelled) by {
            assert(earlier[i] == accepts[i]);
        }
        server_runs_until_cancelled(state, earlier);
        assert(accepts[accepts.len() - 1] == accepts.last());
    }
}

/// The shutdown signal fired twice does what it does fired once: the second
/// changes nothing and asks for nothing.
pub proof fn cancelling_server_is_idempotent(state: Acceptor)
    ensures
        ({
            let once = state.turn(Accept::Cancelled).0;
            let twice = once.turn(Accept::Cancelled);
            twice.0 == once && twice.1 == TurnKind::Ignore
        }),
{
}

/// While the server runs, its connections are numbered in the order in
/// which they come, from the count it began with: no two of them get the
/// same id.
pub proof fn ids_count_connections(state: Acceptor, accepts: Seq<Accept>)
    requires
        !turns(state, accepts).stopped,
    ensures
        turns(state, accepts).taken == state.taken + connections(accepts),
        accepts.len() > 0 && accepts.last() is Connection ==> last_turn(state, accepts)
            == (TurnKind::Serve {
            client_ip: accepts.last()->client_ip,
            id: state.taken + connections(accepts.drop_last()),
        }),
    decreases accepts.len(),
{
    if accepts.len() > 0 {
        assert(!turns(state, accepts.drop_last()).stopped);
        ids_count_connections(state, accepts.drop_last());
    }
}

/// A connection that is cancelled while it is served is not dropped at
/// once: it is told to shut down, and it is dropped when it has ended,
/// however it ended.
pub proof fn cancelled_connection_is_drained(end: ConnectionEvent)
    requires
        !(end is Cancelled),
    ensures
        ({
            let told = connection_step(ConnectionPhase::Serving, ConnectionEvent::Cancelled);
            let ended = connection_step(told.0, end);
            &&& told.1 == ConnectionAction::ShutDown
            &&& told.2.is_none()
            &&& ended.0 == ConnectionPhase::Done
            &&& ended.1 == ConnectionAction::Drop
            &&& ended.2.is_none()
        }),
{
}

/// The shutdown signal that reaches a connection twice does what it does
/// the first time: the second changes nothing and asks for nothing.
pub proof fn cancelling_connection_is_idempotent(phase: ConnectionPhase)
    ensures
        ({
            let once = connection_step(phase, ConnectionEvent::Cancelled);
            let twice = connection_step(once.0, ConnectionEvent::Cancelled);
            &&& twice.0 == once.0
            &&& twice.1 == ConnectionAction::Ignore
            &&& twice.2.is_none()
        }),
{
}

} // verus!
