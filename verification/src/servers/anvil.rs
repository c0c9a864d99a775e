//! Configuration and command building for the settlement-layer devnet
//! service.  Spawning and stopping the process is the embedding program's
//! concern; the argument list it runs with is computed and verified here.

use vstd::prelude::*;

use crate::decimal::dec_str;
use crate::decimal::u16_to_string;
use crate::servers::server::ServerError;
use crate::text::strings_view;

verus! {

/// A failure while managing the devnet service.
#[derive(Clone, Debug, PartialEq, Eq)]
pub enum AnvilError {
    /// The binary is not installed on the system.
    NotInstalled,
    /// The underlying server process failed.
    Server(ServerError),
}

/// Configuration of the devnet service.
#[derive(Clone, Debug, PartialEq, Eq)]
pub struct AnvilConfig {
    pub port: u16,
    pub host: String,
    pub fork_url: Option<String>,
    pub load_db: Option<String>,
    pub dump_db: Option<String>,
}

impl Default for AnvilConfig {
    fn default() -> (r: AnvilConfig)
        ensures
            r.port == 8545,
            r.host@ == "127.0.0.1"@,
            r.fork_url is None,
            r.load_db is None,
            r.dump_db is None,
    {
        AnvilConfig {
            port: 8545,
            host: "127.0.0.1".to_owned(),
            fork_url: None,
            load_db: None,
            dump_db: None,
        }
    }
}

/// The view of an optional string.
pub open spec fn opt_str_view(s: Option<String>) -> Option<Seq<char>> {
    match s {
        Some(x) => Some(x@),
        None => None,
    }
}

/// The argument list the devnet service is started with.
pub open spec fn spec_anvil_args(
    port: u16,
    host: Seq<char>,
    fork_url: Option<Seq<char>>,
    load_db: Option<Seq<char>>,
    dump_db: Option<Seq<char>>,
) -> Seq<Seq<char>> {
    seq!["--port"@, dec_str(port as int), "--host"@, host] + (match fork_url {
        Some(u) => seq!["--fork-url"@, u],
        None => Seq::empty(),
    }) + (match load_db {
        Some(p) => seq!["--load-db"@, p],
        None => Seq::empty(),
    }) + (match dump_db {
        Some(p) => seq!["--dump-db"@, p],
        None => Seq::empty(),
    })
}

impl AnvilConfig {
    /// Builds the argument list for the devnet command.
    pub fn build_anvil_command(&self) -> (args: Vec<String>)
        ensures
            strings_view(args@) == spec_anvil_args(
                self.port,
                self.host@,
                opt_str_view(self.fork_url),
                opt_str_view(self.load_db),
                opt_str_view(self.dump_db),
            ),
    {
        let mut args: Vec<String> = Vec::new();
        args.push("--port".to_owned());
        args.push(u16_to_string(self.port));
        args.push("--host".to_owned());
        args.push(self.host.clone());
        match &self.fork_url {
            Some(u) => {
                args.push("--fork-url".to_owned());
                args.push(u.clone());
            },
            None => {},
        }
        match &self.load_db {
            Some(p) => {
                args.push("--load-db".to_owned());
                args.push(p.clone());
            },
            None => {},
        }
        match &self.dump_db {
            Some(p) => {
                args.push("--dump-db".to_owned());
                args.push(p.clone());
            },
            None => {},
        }
        proof {
            assert(strings_view(args@) =~~= spec_anvil_args(
                self.port,
                self.host@,
                opt_str_view(self.fork_url),
                opt_str_view(self.load_db),
                opt_str_view(self.dump_db),
            ));
        }
        args
    }
}

/// Builder for the devnet configuration.
pub struct AnvilCMDBuilder {
    pub port: u16,
    pub host: String,
    pub fork_url: Option<String>,
    pub load_db: Option<String>,
    pub dump_db: Option<String>,
}

impl AnvilCMDBuilder {
    /// Creates a builder with the default values.
    pub fn new() -> (r: AnvilCMDBuilder)
        ensures
            r.port == 8545,
            r.host@ == "127.0.0.1"@,
            r.fork_url is None,
            r.load_db is None,
            r.dump_db is None,
    {
        AnvilCMDBuilder {
            port: 8545,
            host: "127.0.0.1".to_owned(),
            fork_url: None,
            load_db: None,
            dump_db: None,
        }
    }

    /// Sets the port.
    pub fn port(self, port: u16) -> (r: AnvilCMDBuilder)
        ensures
            r.port == port,
            r.host == self.host,
            r.fork_url == self.fork_url,
            r.load_db == self.load_db,
            r.dump_db == self.dump_db,
    {
        AnvilCMDBuilder { port, ..self }
    }

    /// Sets the host.
    pub fn host(self, host: String) -> (r: AnvilCMDBuilder)
        ensures
            r.host == host,
            r.port == self.port,
            r.fork_url == self.fork_url,
            r.load_db == self.load_db,
            r.dump_db == self.dump_db,
    {
        AnvilCMDBuilder { host, ..self }
    }

    /// Sets the URL of an existing network to fork from.
    pub fn fork_url(self, url: String) -> (r: AnvilCMDBuilder)
        ensures
            r.fork_url == Some(url),
            r.port == self.port,
            r.host == self.host,
            r.load_db == self.load_db,
            r.dump_db == self.dump_db,
    {
        AnvilCMDBuilder { fork_url: Some(url), ..self }
    }

    /// Sets the database file to load state from.
    pub fn load_db(self, path: String) -> (r: AnvilCMDBuilder)
        ensures
            r.load_db == Some(path),
            r.port == self.port,
            r.host == self.host,
            r.fork_url == self.fork_url,
            r.dump_db == self.dump_db,
    {
        AnvilCMDBuilder { load_db: Some(path), ..self }
    }

    /// Sets the database file to dump state to.
    pub fn dump_db(self, path: String) -> (r: AnvilCMDBuilder)
        ensures
            r.dump_db == Some(path),
            r.port == self.port,
            r.host == self.host,
            r.fork_url == self.fork_url,
            r.load_db == self.load_db,
    {
        AnvilCMDBuilder { dump_db: Some(path), ..self }
    }

    /// Builds the final configuration.
    pub fn build(self) -> (r: AnvilConfig)
        ensures
            r.port == self.port,
            r.host == self.host,
            r.fork_url == self.fork_url,
            r.load_db == self.load_db,
            r.dump_db == self.dump_db,
    {
        AnvilConfig {
            port: self.port,
            host: self.host,
            fork_url: self.fork_url,
            load_db: self.load_db,
            dump_db: self.dump_db,
        }
    }
}

} // verus!
