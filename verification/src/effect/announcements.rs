//! Announcements: notes that something happened, for whoever it concerns.

use vstd::prelude::*;

verus! {

/// What the network subsystem announces to the rest of the node.
#[derive(Debug, Clone, PartialEq, Eq)]
pub enum NetworkAnnouncement<I, P> {
    /// A message arrived from a peer.
    MessageReceived {
        /// The peer that sent the message.
        sender: I,
        /// The message.
        payload: P,
    },
}

} // verus!
