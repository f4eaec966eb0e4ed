//! The kernel of a validator node: a single-threaded reactor that routes events
//! to the subsystem that owns them and collects the effects they hand back.
//!
//! Subsystems never call each other. Each one consumes the events addressed to
//! it and answers with effects; the reactor wraps every effect for its owner,
//! so that whatever the effect yields comes back to the same subsystem.
//!
//! - [`effect`]: effects, the handle that subsystems build them for, and the
//!   requests and announcements that travel between subsystems.
//! - [`components`]: what a subsystem shows to the reactor.
//! - [`reactor`]: wrapping of effects, and the validator node's reactor with
//!   its events and wire messages.
//! - [`crypto`]: how the cryptography that the subsystems use reports failure.
//! - [`random`]: the node's random source.

pub mod components;
pub mod crypto;
pub mod effect;
pub mod random;
pub mod reactor;
