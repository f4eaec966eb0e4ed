//! What the node's subsystems need to know of cryptography: how it fails.

pub mod error;

pub use error::{Error, ReadFileError};
