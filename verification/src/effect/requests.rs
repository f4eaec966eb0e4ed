//! Requests: what one subsystem asks of another.

use vstd::prelude::*;

verus! {

/// A request to the network subsystem.
#[derive(Debug, Clone, PartialEq, Eq)]
pub enum NetworkRequest<I, P> {
    /// Send a message to one peer.
    SendMessage {
        /// The peer to send to.
        dest: I,
        /// The message.
        payload: P,
    },
    /// Send a message to every peer.
    Broadcast {
        /// The message.
        payload: P,
    },
}

impl<I, P> NetworkRequest<I, P> {
    /// The peer that the request names, where it names one.
    pub open spec fn dest(self) -> Option<I> {
        match self {
            NetworkRequest::SendMessage { dest, .. } => Some(dest),
            NetworkRequest::Broadcast { .. } => None,
        }
    }

    /// The message that the request carries.
    pub open spec fn payload(self) -> P {
        match self {
            NetworkRequest::SendMessage { payload, .. } => payload,
            NetworkRequest::Broadcast { payload } => payload,
        }
    }

    /// The same request for another payload.
    pub open spec fn with_payload<P2>(self, payload: P2) -> NetworkRequest<I, P2> {
        match self {
            NetworkRequest::SendMessage { dest, .. } => NetworkRequest::SendMessage {
                dest,
                payload,
            },
            NetworkRequest::Broadcast { .. } => NetworkRequest::Broadcast { payload },
        }
    }

    /// Passes the payload through `wrap` and leaves the rest of the request as
    /// it is: the kind of request and the peer it names stay the same.
    pub fn map_payload<P2, F: FnOnce(P) -> P2>(self, wrap: F) -> (mapped: NetworkRequest<I, P2>)
        requires
            call_requires(wrap, (self.payload(),)),
        ensures
            call_ensures(wrap, (self.payload(),), mapped.payload()),
            mapped == self.with_payload(mapped.payload()),
    {
        match self {
            NetworkRequest::SendMessage { dest, payload } => NetworkRequest::SendMessage {
                dest,
                payload: wrap(payload),
            },
            NetworkRequest::Broadcast { payload } => NetworkRequest::Broadcast {
                payload: wrap(payload),
            },
        }
    }
}

} // verus!
