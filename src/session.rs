//! The decisions of one subscriber session, from connection to release.
//!
//! The session first pushes the snapshot it was handed on connecting
//! (greeting), then streams what its subscription delivers, until a push
//! fails, the subscription is closed, or the consumer closes or fails. The
//! caller performs each action and reports what came of it as the next event.
use crate::fanout::Delivery;
use crate::snapshot::Snapshot;
use std::sync::Arc;
use vstd::prelude::*;

verus! {

pub enum SessionPhase {
    /// The first snapshot is being pushed.
    Greeting,
    /// Published snapshots are being pushed as they arrive.
    Streaming,
    /// The session is over and its resources are released.
    Ended,
}

/// What the consumer's side of the connection produced.
pub enum Inbound {
    /// An explicit close notification.
    Close,
    /// The inbound stream ended.
    Finished,
    /// Reading from the consumer failed.
    Failed,
    /// Any other message; it carries no meaning and is ignored.
    Message,
}

pub enum SessionEvent {
    /// The outcome of the last push to the consumer: `true` if the snapshot
    /// was encoded and sent.
    Pushed(bool),
    /// What the subscription delivered when polled.
    Channel(Delivery),
    /// What arrived from the consumer.
    Inbound(Inbound),
}

pub enum SessionAction {
    /// Encode and send this snapshot, then report `Pushed`.
    Push(Arc<Snapshot>),
    /// Nothing to do until the next event.
    Wait,
    /// Release the subscription and the connection; the session is over.
    Release,
}

/// The events that end a session.
pub open spec fn ends_session(e: SessionEvent) -> bool {
    match e {
        SessionEvent::Pushed(ok) => !ok,
        SessionEvent::Channel(d) => d is Closed,
        SessionEvent::Inbound(i) => !(i is Message),
    }
}

/// The next phase of a session in `phase` on `event`, and what to do.
///
/// While the greeting is under way the caller does not poll the
/// subscription: a delivery reported in that phase is not pushed, and only a
/// closed subscription is acted on (by releasing). Polling starts once the
/// greeting was sent and the session is streaming.
pub fn session_step(phase: SessionPhase, event: SessionEvent) -> (r: (SessionPhase, SessionAction))
    ensures
        r.0 is Ended <==> phase is Ended || ends_session(event),
        r.1 is Release <==> !(phase is Ended) && ends_session(event),
        phase is Greeting && event == SessionEvent::Pushed(true) ==> r.0 is Streaming,
        !(phase is Greeting && event == SessionEvent::Pushed(true)) && !(r.0 is Ended) ==> r.0
            == phase,
        phase is Streaming ==> (event matches SessionEvent::Channel(Delivery::Item(s)) ==> r.1
            == SessionAction::Push(s)),
        r.1 matches SessionAction::Push(s) ==> phase is Streaming && event
            == SessionEvent::Channel(Delivery::Item(s)),
        r.1 is Push || r.1 is Release || r.1 is Wait,
{
    match phase {
        SessionPhase::Ended => (SessionPhase::Ended, SessionAction::Wait),
        SessionPhase::Greeting => match event {
            SessionEvent::Pushed(true) => (SessionPhase::Streaming, SessionAction::Wait),
            SessionEvent::Pushed(false) => (SessionPhase::Ended, SessionAction::Release),
            SessionEvent::Channel(Delivery::Closed) => (SessionPhase::Ended, SessionAction::Release),
            SessionEvent::Channel(_) => (SessionPhase::Greeting, SessionAction::Wait),
            SessionEvent::Inbound(Inbound::Message) => (SessionPhase::Greeting, SessionAction::Wait),
            SessionEvent::Inbound(_) => (SessionPhase::Ended, SessionAction::Release),
        },
        SessionPhase::Streaming => match event {
            SessionEvent::Pushed(true) => (SessionPhase::Streaming, SessionAction::Wait),
            SessionEvent::Pushed(false) => (SessionPhase::Ended, SessionAction::Release),
            SessionEvent::Channel(Delivery::Item(s)) => (
                SessionPhase::Streaming,
                SessionAction::Push(s),
            ),
            SessionEvent::Channel(Delivery::Empty) => (SessionPhase::Streaming, SessionAction::Wait),
            SessionEvent::Channel(Delivery::Closed) => (
                SessionPhase::Ended,
                SessionAction::Release,
            ),
            SessionEvent::Inbound(Inbound::Message) => (
                SessionPhase::Streaming,
                SessionAction::Wait,
            ),
            SessionEvent::Inbound(_) => (SessionPhase::Ended, SessionAction::Release),
        },
    }
}

} // verus!
