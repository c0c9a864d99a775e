//! Configuration of a generic managed server process.
//!
//! Starting, probing and stopping the process itself is I/O and lives with
//! the embedding program; the configuration, its defaults and the endpoint
//! text it determines are modelled and verified here.

use vstd::prelude::*;

use crate::decimal::dec_str;
use crate::decimal::u16_to_string;

verus! {

/// A failure while managing a server process.
#[derive(Clone, Debug, PartialEq, Eq)]
pub enum ServerError {
    /// The process could not be started; carries the reported cause.
    StartupFailed(String),
    /// The process exited early; carries its exit code.
    ProcessExited(i32),
    /// The server did not accept a connection; carries the attempt count.
    ConnectionTimeout(usize),
    /// An input/output failure; carries the reported cause.
    Io(String),
    ProcessNotRunning,
}

/// Generic server configuration.
#[derive(Clone, Debug, PartialEq, Eq)]
pub struct ServerConfig {
    pub port: u16,
    pub host: String,
    pub connection_attempts: usize,
    pub connection_delay_ms: u64,
}

impl Default for ServerConfig {
    fn default() -> (r: ServerConfig)
        ensures
            r.port == 8545,
            r.host@ == "127.0.0.1"@,
            r.connection_attempts == 30,
            r.connection_delay_ms == 1000,
    {
        ServerConfig {
            port: 8545,
            host: "127.0.0.1".to_owned(),
            connection_attempts: 30,
            connection_delay_ms: 1000,
        }
    }
}

/// The text of a host-and-port address.
pub open spec fn spec_addr(host: Seq<char>, port: u16) -> Seq<char> {
    host + ":"@ + dec_str(port as int)
}

/// The text of an HTTP endpoint for a host and port.
pub open spec fn spec_http_endpoint(host: Seq<char>, port: u16) -> Seq<char> {
    "http://"@ + spec_addr(host, port)
}

impl ServerConfig {
    /// The address the server listens on.
    pub fn addr(&self) -> (s: String)
        ensures
            s@ == spec_addr(self.host@, self.port),
    {
        addr_string(&self.host, self.port)
    }

    /// The HTTP endpoint text of the server.
    pub fn endpoint_text(&self) -> (s: String)
        ensures
            s@ == spec_http_endpoint(self.host@, self.port),
    {
        http_endpoint_string(&self.host, self.port)
    }
}

/// Renders `host:port`.
pub fn addr_string(host: &String, port: u16) -> (s: String)
    ensures
        s@ == spec_addr(host@, port),
{
    let mut s = host.clone();
    s.append(":");
    s.append(u16_to_string(port).as_str());
    proof {
        assert(s@ =~= spec_addr(host@, port));
    }
    s
}

/// Renders `http://host:port`.
pub fn http_endpoint_string(host: &String, port: u16) -> (s: String)
    ensures
        s@ == spec_http_endpoint(host@, port),
{
    let mut s = "http://".to_owned();
    s.append(host.as_str());
    s.append(":");
    s.append(u16_to_string(port).as_str());
    proof {
        assert(s@ =~= spec_http_endpoint(host@, port));
    }
    s
}

/// Moving database files in and out of a server's data directory, a concern
/// of the embedding program's services.
pub trait Filesystem {
    fn load_db_files(paths: &Vec<String>);

    fn dump_db_files(paths: &Vec<String>);
}

} // verus!
