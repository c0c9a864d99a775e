//! Which RPC surface a server instance exposes.

use vstd::prelude::*;

verus! {

/// The RPC surface of a node: the public user API or the operator's admin
/// API.
#[derive(Clone, Copy, Debug, PartialEq, Eq, Structural)]
pub enum RpcType {
    User,
    Admin,
}

impl RpcType {
    /// The display name of the server that exposes this surface.
    pub fn service_name(&self) -> (r: &'static str)
        ensures
            *self is User ==> r@ == "JSON-RPC"@,
            *self is Admin ==> r@ == "JSON-RPC (Admin)"@,
    {
        match self {
            RpcType::User => "JSON-RPC",
            RpcType::Admin => "JSON-RPC (Admin)",
        }
    }
}

} // verus!
