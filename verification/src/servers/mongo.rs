//! Configuration and command building for the document-database service.

use vstd::prelude::*;

use crate::decimal::dec_str;
use crate::servers::docker::DockerError;
use crate::text::port_pair_string;
use crate::text::strings_view;

verus! {

/// A failure while managing the document-database service.
#[derive(Clone, Debug, PartialEq, Eq)]
pub enum MongoError {
    /// The container runtime failed.
    Docker(DockerError),
    /// A container of this service already runs on the port.
    AlreadyRunning(u16),
    /// The port is already in use.
    PortInUse(u16),
    /// Connecting to the running service failed; carries the cause.
    ConnectionFailed(String),
}

/// Configuration of the document-database service.
#[derive(Clone, Debug, PartialEq, Eq)]
pub struct MongoConfig {
    pub port: u16,
    pub image: String,
    pub container_name: String,
}

impl Default for MongoConfig {
    fn default() -> (r: MongoConfig)
        ensures
            r.port == 27017,
            r.image@ == "mongo:latest"@,
            r.container_name@ == "mongodb-service"@,
    {
        MongoConfig {
            port: 27017,
            image: "mongo:latest".to_owned(),
            container_name: "mongodb-service".to_owned(),
        }
    }
}

/// The container-runtime argument list the service is started with.
pub open spec fn spec_mongo_docker_args(
    port: u16,
    image: Seq<char>,
    container_name: Seq<char>,
) -> Seq<Seq<char>> {
    seq![
        "run"@,
        "--rm"@,
        "--name"@,
        container_name,
        "-p"@,
        dec_str(port as int) + ":"@ + dec_str(27017),
        image,
    ]
}

impl MongoConfig {
    /// Builds the container-runtime argument list for the service.
    pub fn build_docker_command(&self) -> (args: Vec<String>)
        ensures
            strings_view(args@) == spec_mongo_docker_args(
                self.port,
                self.image@,
                self.container_name@,
            ),
    {
        let mut args: Vec<String> = Vec::new();
        args.push("run".to_owned());
        args.push("--rm".to_owned());
        args.push("--name".to_owned());
        args.push(self.container_name.clone());
        args.push("-p".to_owned());
        args.push(port_pair_string(self.port, 27017));
        args.push(self.image.clone());
        proof {
            assert(strings_view(args@) =~~= spec_mongo_docker_args(
                self.port,
                self.image@,
                self.container_name@,
            ));
        }
        args
    }
}

} // verus!
