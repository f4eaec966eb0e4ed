//! Why a validator node did not start.

use crate::reactor::validator::Node;
use vstd::prelude::*;

verus! {

/// The failure of the first subsystem that could not be started.
#[derive(Debug, Clone, PartialEq, Eq)]
pub enum Error<T: Node> {
    /// The network subsystem could not be started.
    Network(T::NetworkError),
    /// The storage subsystem could not be opened.
    Storage(T::StorageError),
}

} // verus!
