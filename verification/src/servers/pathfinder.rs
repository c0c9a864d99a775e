//! Configuration and command building for the full-node indexer service.

use vstd::prelude::*;

use crate::decimal::dec_str;
use crate::decimal::u64_to_string;
use crate::servers::anvil::opt_str_view;
use crate::servers::docker::DockerError;
use crate::servers::localstack::spec_env_flags;
use crate::text::any_host_port_string;
use crate::text::kv_eq_string;
use crate::text::pairs_view;
use crate::text::path_pair_string;
use crate::text::port_pair_string;
use crate::text::push_str_arg;
use crate::text::strings_view;

verus! {

/// A failure while managing the indexer service.
#[derive(Clone, Debug, PartialEq, Eq)]
pub enum PathfinderError {
    /// The container runtime failed.
    Docker(DockerError),
    /// A container of this service already runs on the port.
    AlreadyRunning(u16),
    /// The port is already in use.
    PortInUse(u16),
    /// Connecting to the running service failed; carries the cause.
    ConnectionFailed(String),
    /// A required configuration item is absent; carries the complaint.
    MissingConfig(String),
}

/// Configuration of the indexer service.
#[derive(Clone, Debug, PartialEq, Eq)]
pub struct PathfinderConfig {
    pub port: u16,
    pub monitor_port: u16,
    pub image: String,
    pub container_name: String,
    pub ethereum_url: String,
    pub data_directory: String,
    pub rpc_root_version: String,
    pub network: String,
    pub chain_id: String,
    pub gateway_url: Option<String>,
    pub feeder_gateway_url: Option<String>,
    pub storage_state_tries: String,
    pub gateway_request_timeout: u64,
    pub data_volume: Option<String>,
    pub environment_vars: Vec<(String, String)>,
}

impl Default for PathfinderConfig {
    fn default() -> (r: PathfinderConfig)
        ensures
            r.port == 9545,
            r.monitor_port == 9090,
            r.image@ == "eqlabs/pathfinder:v0.17.0-beta.2"@,
            r.container_name@ == "pathfinder-service"@,
            r.ethereum_url@ == "https://ethereum-sepolia-rpc.publicnode.com"@,
            r.data_directory@ == "/var/pathfinder"@,
            r.rpc_root_version@ == "v07"@,
            r.network@ == "custom"@,
            r.chain_id@ == "MADARA_DEVNET"@,
            opt_str_view(r.gateway_url) == Some("http://host.docker.internal:9943/feeder"@),
            opt_str_view(r.feeder_gateway_url) == Some(
                "http://host.docker.internal:9943/feeder_gateway"@,
            ),
            r.storage_state_tries@ == "archive"@,
            r.gateway_request_timeout == 1000,
            r.data_volume is None,
            r.environment_vars@.len() == 0,
    {
        PathfinderConfig {
            port: 9545,
            monitor_port: 9090,
            image: "eqlabs/pathfinder:v0.17.0-beta.2".to_owned(),
            container_name: "pathfinder-service".to_owned(),
            ethereum_url: "https://ethereum-sepolia-rpc.publicnode.com".to_owned(),
            data_directory: "/var/pathfinder".to_owned(),
            rpc_root_version: "v07".to_owned(),
            network: "custom".to_owned(),
            chain_id: "MADARA_DEVNET".to_owned(),
            gateway_url: Some("http://host.docker.internal:9943/feeder".to_owned()),
            feeder_gateway_url: Some("http://host.docker.internal:9943/feeder_gateway".to_owned()),
            storage_state_tries: "archive".to_owned(),
            gateway_request_timeout: 1000,
            data_volume: None,
            environment_vars: Vec::new(),
        }
    }
}

/// The container-runtime argument list the service is started with.
pub open spec fn spec_pathfinder_docker_args(c: PathfinderConfig) -> Seq<Seq<char>> {
    seq![
        "run"@,
        "--rm"@,
        "--name"@,
        c.container_name@,
        "-p"@,
        dec_str(c.port as int) + ":"@ + dec_str(c.port as int),
        "-p"@,
        dec_str(c.monitor_port as int) + ":"@ + dec_str(c.monitor_port as int),
    ] + (match opt_str_view(c.data_volume) {
        Some(v) => seq!["-v"@, v + ":"@ + c.data_directory@],
        None => Seq::empty(),
    }) + spec_env_flags(pairs_view(c.environment_vars@)) + seq![
        c.image@,
        "pathfinder"@,
        "--ethereum.url"@,
        c.ethereum_url@,
        "--data-directory"@,
        c.data_directory@,
        "--http-rpc"@,
        "0.0.0.0:"@ + dec_str(c.port as int),
        "--rpc.root-version"@,
        c.rpc_root_version@,
        "--monitor-address"@,
        "0.0.0.0:"@ + dec_str(c.monitor_port as int),
        "--network"@,
        c.network@,
        "--chain-id"@,
        c.chain_id@,
    ] + (match opt_str_view(c.gateway_url) {
        Some(u) => seq!["--gateway-url"@, u],
        None => Seq::empty(),
    }) + (match opt_str_view(c.feeder_gateway_url) {
        Some(u) => seq!["--feeder-gateway-url"@, u],
        None => Seq::empty(),
    }) + seq![
        "--storage.state-tries"@,
        c.storage_state_tries@,
        "--gateway.request-timeout"@,
        dec_str(c.gateway_request_timeout as int),
    ]
}

impl PathfinderConfig {
    /// Builds the container-runtime argument list for the service.
    #[verifier::rlimit(100)]
    pub fn build_docker_command(&self) -> (args: Vec<String>)
        ensures
            strings_view(args@) == spec_pathfinder_docker_args(*self),
    {
        let mut args: Vec<String> = Vec::new();
        args.push("run".to_owned());
        args.push("--rm".to_owned());
        args.push("--name".to_owned());
        args.push(self.container_name.clone());
        args.push("-p".to_owned());
        args.push(port_pair_string(self.port, self.port));
        args.push("-p".to_owned());
        args.push(port_pair_string(self.monitor_port, self.monitor_port));
        match &self.data_volume {
            Some(v) => {
                args.push("-v".to_owned());
                args.push(path_pair_string(v, &self.data_directory));
            },
            None => {},
        }
        let ghost head = strings_view(args@);
        let mut i: usize = 0;
        while i < self.environment_vars.len()
            invariant
                i <= self.environment_vars@.len(),
                strings_view(args@) == head + spec_env_flags(
                    pairs_view(self.environment_vars@).take(i as int),
                ),
            decreases self.environment_vars@.len() - i,
        {
            let ghost args_before = args@;
            let e_flag = "-e".to_owned();
            let kv = kv_eq_string(&self.environment_vars[i].0, &self.environment_vars[i].1);
            args.push(e_flag);
            let ghost args_mid = args@;
            args.push(kv);
            i = i + 1;
            proof {
                crate::text::lemma_strings_view_push(args_before, e_flag);
                crate::text::lemma_strings_view_push(args_mid, kv);
                let pv = pairs_view(self.environment_vars@);
                assert(pv.take(i as int).drop_last() =~= pv.take(i - 1));
                assert(pv.take(i as int).last() == pv[i - 1]);
                assert(spec_env_flags(pv.take(i as int)) == spec_env_flags(pv.take(i - 1))
                    + seq!["-e"@, pv[i - 1].0 + "="@ + pv[i - 1].1]);
                assert(strings_view(args@) =~~= head + spec_env_flags(pv.take(i as int)));
            }
        }
        proof {
            assert(pairs_view(self.environment_vars@).take(
                self.environment_vars@.len() as int,
            ) =~= pairs_view(self.environment_vars@));
        }
        let ghost mid = strings_view(args@);
        push_str_arg(&mut args, self.image.clone());
        push_str_arg(&mut args, "pathfinder".to_owned());
        push_str_arg(&mut args, "--ethereum.url".to_owned());
        push_str_arg(&mut args, self.ethereum_url.clone());
        push_str_arg(&mut args, "--data-directory".to_owned());
        push_str_arg(&mut args, self.data_directory.clone());
        push_str_arg(&mut args, "--http-rpc".to_owned());
        push_str_arg(&mut args, any_host_port_string(self.port));
        push_str_arg(&mut args, "--rpc.root-version".to_owned());
        push_str_arg(&mut args, self.rpc_root_version.clone());
        push_str_arg(&mut args, "--monitor-address".to_owned());
        push_str_arg(&mut args, any_host_port_string(self.monitor_port));
        push_str_arg(&mut args, "--network".to_owned());
        push_str_arg(&mut args, self.network.clone());
        push_str_arg(&mut args, "--chain-id".to_owned());
        push_str_arg(&mut args, self.chain_id.clone());
        proof {
            assert(strings_view(args@) =~~= mid + seq![
                self.image@,
                "pathfinder"@,
                "--ethereum.url"@,
                self.ethereum_url@,
                "--data-directory"@,
                self.data_directory@,
                "--http-rpc"@,
                "0.0.0.0:"@ + dec_str(self.port as int),
                "--rpc.root-version"@,
                self.rpc_root_version@,
                "--monitor-address"@,
                "0.0.0.0:"@ + dec_str(self.monitor_port as int),
                "--network"@,
                self.network@,
                "--chain-id"@,
                self.chain_id@,
            ]);
        }
        let ghost mid2 = strings_view(args@);
        match &self.gateway_url {
            Some(u) => {
                push_str_arg(&mut args, "--gateway-url".to_owned());
                push_str_arg(&mut args, u.clone());
            },
            None => {},
        }
        match &self.feeder_gateway_url {
            Some(u) => {
                push_str_arg(&mut args, "--feeder-gateway-url".to_owned());
                push_str_arg(&mut args, u.clone());
            },
            None => {},
        }
        push_str_arg(&mut args, "--storage.state-tries".to_owned());
        push_str_arg(&mut args, self.storage_state_tries.clone());
        push_str_arg(&mut args, "--gateway.request-timeout".to_owned());
        push_str_arg(&mut args, u64_to_string(self.gateway_request_timeout));
        proof {
            assert(strings_view(args@) =~~= mid2 + (match opt_str_view(self.gateway_url) {
                Some(u) => seq!["--gateway-url"@, u],
                None => Seq::empty(),
            }) + (match opt_str_view(self.feeder_gateway_url) {
                Some(u) => seq!["--feeder-gateway-url"@, u],
                None => Seq::empty(),
            }) + seq![
                "--storage.state-tries"@,
                self.storage_state_tries@,
                "--gateway.request-timeout"@,
                dec_str(self.gateway_request_timeout as int),
            ]);
            assert(strings_view(args@) =~~= spec_pathfinder_docker_args(*self));
        }
        args
    }

    /// The services the indexer depends on.
    pub fn dependencies(&self) -> (r: Vec<String>)
        ensures
            strings_view(r@) =~~= seq!["madara"@, "anvil"@],
    {
        let mut r: Vec<String> = Vec::new();
        r.push("madara".to_owned());
        r.push("anvil".to_owned());
        proof {
            assert(strings_view(r@) =~~= seq!["madara"@, "anvil"@]);
        }
        r
    }
}

} // verus!
