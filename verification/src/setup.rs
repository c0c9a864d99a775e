//! Top-level configuration of a full deployment and the context handed to
//! every service: which layer is being set up, where each service listens,
//! and the endpoint text derived from the ports.
//!
//! Starting the services themselves is the embedding program's concern.

use vstd::prelude::*;

use crate::decimal::dec_str;
use crate::decimal::u16_to_string;
use crate::servers::anvil::AnvilError;
use crate::servers::localstack::LocalstackError;
use crate::servers::madara::MadaraError;
use crate::servers::mongo::MongoError;
use crate::servers::orchestrator::Layer;
use crate::servers::orchestrator::OrchestratorError;
use crate::servers::pathfinder::PathfinderError;

verus! {

/// A failure while bringing up a deployment.
#[derive(Clone, Debug, PartialEq, Eq)]
pub enum SetupError {
    Anvil(AnvilError),
    Localstack(LocalstackError),
    Mongo(MongoError),
    Pathfinder(PathfinderError),
    Orchestrator(OrchestratorError),
    Madara(MadaraError),
    /// The bootstrapper failed; carries the complaint.
    Bootstrapper(String),
    /// The sequencer failed; carries the complaint.
    Sequencer(String),
    /// The setup ran out of time; carries the complaint.
    Timeout(String),
    /// A required dependency was missing or unhealthy; carries the complaint.
    DependencyFailed(String),
    /// A service failed to start; carries the complaint.
    StartupFailed(String),
    /// Preparing the context failed; carries the complaint.
    ContextFailed(String),
}

/// Configuration of a full deployment.
#[derive(Clone, Debug, PartialEq, Eq)]
pub struct SetupConfig {
    pub layer: Layer,
    pub ethereum_api_key: String,
    pub anvil_port: u16,
    pub localstack_port: u16,
    pub mongo_port: u16,
    pub pathfinder_port: u16,
    pub orchestrator_port: Option<u16>,
    pub madara_port: u16,
    pub bootstrapper_port: u16,
    pub data_directory: String,
    /// How long the whole setup may take, in seconds.
    pub setup_timeout: u64,
    pub wait_for_sync: bool,
    pub skip_existing_dbs: bool,
}

impl Default for SetupConfig {
    fn default() -> (r: SetupConfig)
        ensures
            r.layer is L2,
            r.ethereum_api_key@ == Seq::<char>::empty(),
            r.anvil_port == 8545,
            r.localstack_port == 4566,
            r.mongo_port == 27017,
            r.pathfinder_port == 9545,
            r.orchestrator_port is None,
            r.madara_port == 9944,
            r.bootstrapper_port == 9945,
            r.data_directory@ == "/tmp/madara-setup"@,
            r.setup_timeout == 300,
            r.wait_for_sync,
            !r.skip_existing_dbs,
    {
        SetupConfig {
            layer: Layer::L2,
            ethereum_api_key: String::new(),
            anvil_port: 8545,
            localstack_port: 4566,
            mongo_port: 27017,
            pathfinder_port: 9545,
            orchestrator_port: None,
            madara_port: 9944,
            bootstrapper_port: 9945,
            data_directory: "/tmp/madara-setup".to_owned(),
            setup_timeout: 300,
            wait_for_sync: true,
            skip_existing_dbs: false,
        }
    }
}

/// The text of a local HTTP endpoint on the given port.
pub open spec fn spec_local_endpoint(port: u16) -> Seq<char> {
    "http://127.0.0.1:"@ + dec_str(port as int)
}

/// Renders `http://127.0.0.1:port`.
pub fn local_endpoint(port: u16) -> (s: String)
    ensures
        s@ == spec_local_endpoint(port),
{
    let mut s = "http://127.0.0.1:".to_owned();
    s.append(u16_to_string(port).as_str());
    proof {
        assert(s@ =~= spec_local_endpoint(port));
    }
    s
}

/// The context handed to every service of a deployment.
#[derive(Clone, Debug)]
pub struct Context {
    pub layer: Layer,
    pub anvil_endpoint: String,
    pub localstack_endpoint: String,
    pub mongo_connection_string: String,
    pub pathfinder_endpoint: String,
    pub orchestrator_endpoint: Option<String>,
    pub sequencer_endpoint: String,
    pub bootstrapper_endpoint: String,
    pub data_directory: String,
    pub setup_start_time: std::time::Instant,
}

impl Context {
    /// Derives the context from a configuration; every endpoint is the local
    /// HTTP endpoint of the configured port, and the clock starts now.
    pub fn new(config: &SetupConfig) -> (r: Context)
        ensures
            r.layer == config.layer,
            r.anvil_endpoint@ == spec_local_endpoint(config.anvil_port),
            r.localstack_endpoint@ == spec_local_endpoint(config.localstack_port),
            r.mongo_connection_string@ == "mongodb://127.0.0.1:"@ + dec_str(
                config.mongo_port as int,
            ) + "/madara"@,
            r.pathfinder_endpoint@ == spec_local_endpoint(config.pathfinder_port),
            (match (r.orchestrator_endpoint, config.orchestrator_port) {
                (Some(e), Some(p)) => e@ == spec_local_endpoint(p),
                (None, None) => true,
                _ => false,
            }),
            r.sequencer_endpoint@ == spec_local_endpoint(config.madara_port),
            r.bootstrapper_endpoint@ == spec_local_endpoint(config.bootstrapper_port),
            r.data_directory == config.data_directory,
    {
        let mut mongo = "mongodb://127.0.0.1:".to_owned();
        mongo.append(u16_to_string(config.mongo_port).as_str());
        mongo.append("/madara");
        proof {
            assert(mongo@ =~= "mongodb://127.0.0.1:"@ + dec_str(config.mongo_port as int)
                + "/madara"@);
        }
        Context {
            layer: config.layer,
            anvil_endpoint: local_endpoint(config.anvil_port),
            localstack_endpoint: local_endpoint(config.localstack_port),
            mongo_connection_string: mongo,
            pathfinder_endpoint: local_endpoint(config.pathfinder_port),
            orchestrator_endpoint: match config.orchestrator_port {
                Some(p) => Some(local_endpoint(p)),
                None => None,
            },
            sequencer_endpoint: local_endpoint(config.madara_port),
            bootstrapper_endpoint: local_endpoint(config.bootstrapper_port),
            data_directory: config.data_directory.clone(),
            setup_start_time: std::time::Instant::now(),
        }
    }

    /// The time since the context was created.  The reading comes from the
    /// clock; nothing is promised of it.
    pub fn elapsed(&self) -> core::time::Duration {
        self.setup_start_time.elapsed()
    }
}

/// The sequencer service of a deployment.  Its process management is not
/// wired up yet; starting yields a fixed local endpoint.
pub struct SequencerService {
    pub endpoint: String,
}

/// Configuration of the sequencer service.
#[derive(Clone, Debug, PartialEq, Eq)]
pub struct SequencerConfig {
    pub port: u16,
    pub data_directory: String,
}

impl SequencerService {
    pub fn start(_config: SequencerConfig) -> (r: Result<SequencerService, SetupError>)
        ensures
            r matches Ok(s) && s.endpoint@ == "http://127.0.0.1:9944"@,
    {
        Ok(SequencerService { endpoint: "http://127.0.0.1:9944".to_owned() })
    }

    pub fn endpoint(&self) -> (r: &str)
        ensures
            r@ == self.endpoint@,
    {
        self.endpoint.as_str()
    }

    pub fn stop(&mut self) -> (r: Result<(), SetupError>)
        ensures
            r is Ok,
            final(self).endpoint == old(self).endpoint,
    {
        Ok(())
    }
}

/// The bootstrapper service of a deployment.  Its process management is not
/// wired up yet; starting yields a fixed local endpoint.
pub struct BootstrapperService {
    pub endpoint: String,
}

/// Configuration of the bootstrapper service.
#[derive(Clone, Debug, PartialEq, Eq)]
pub struct BootstrapperConfig {
    pub port: u16,
    pub layer: Layer,
}

impl BootstrapperService {
    pub fn start(_config: BootstrapperConfig) -> (r: Result<BootstrapperService, SetupError>)
        ensures
            r matches Ok(s) && s.endpoint@ == "http://127.0.0.1:9945"@,
    {
        Ok(BootstrapperService { endpoint: "http://127.0.0.1:9945".to_owned() })
    }

    pub fn endpoint(&self) -> (r: &str)
        ensures
            r@ == self.endpoint@,
    {
        self.endpoint.as_str()
    }

    pub fn stop(&mut self) -> (r: Result<(), SetupError>)
        ensures
            r is Ok,
            final(self).endpoint == old(self).endpoint,
    {
        Ok(())
    }
}

} // verus!
