//! Failures of the container runtime the services run under.

use vstd::prelude::*;

use crate::servers::server::ServerError;

verus! {

/// A failure while driving the container runtime.
#[derive(Clone, Debug, PartialEq, Eq)]
pub enum DockerError {
    /// The container runtime is not running.
    NotRunning,
    /// The underlying server process failed.
    Server(ServerError),
}

} // verus!
