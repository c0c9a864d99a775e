//! Configurations, command builders and endpoint text of the services.

use sync_core::servers::anvil::{AnvilCMDBuilder, AnvilConfig};
use sync_core::servers::localstack::LocalstackConfig;
use sync_core::servers::madara::{MadaraCMD, MadaraCMDBuilder, MadaraConfig};
use sync_core::servers::mongo::MongoConfig;
use sync_core::servers::orchestrator::{
    run_l2_config, run_l3_config, setup_l2_config, Layer, OrchestratorConfig, OrchestratorMode,
};
use sync_core::servers::pathfinder::PathfinderConfig;
use sync_core::servers::server::ServerConfig;
use sync_core::setup::{BootstrapperService, Context, SequencerService, SetupConfig};
use sync_core::setup::{BootstrapperConfig, SequencerConfig};
use sync_core::jobs::{WorkerTriggerMessage, WorkerTriggerType, WorkerTriggerTypeError};
use sync_core::rpc::RpcType;
use sync_core::servers::madara::MadaraError;

fn s(v: &[&str]) -> Vec<String> {
    v.iter().map(|x| x.to_string()).collect()
}

#[test]
fn anvil_builder_collects_fields() {
    let config = AnvilCMDBuilder::new()
        .port(9001)
        .host("0.0.0.0".to_string())
        .fork_url("https://rpc.example".to_string())
        .load_db("state.json".to_string())
        .build();
    assert_eq!(config.port, 9001);
    assert_eq!(config.host, "0.0.0.0");
    assert_eq!(config.fork_url.as_deref(), Some("https://rpc.example"));
    assert_eq!(config.load_db.as_deref(), Some("state.json"));
    assert_eq!(config.dump_db, None);
}

#[test]
fn anvil_command_arguments() {
    let mut config = AnvilConfig::default();
    config.port = 7777;
    config.fork_url = Some("https://rpc.example".to_string());
    assert_eq!(
        config.build_anvil_command(),
        s(&["--port", "7777", "--host", "127.0.0.1", "--fork-url", "https://rpc.example"])
    );
}

#[test]
fn madara_command_from_default_config() {
    let cmd = MadaraCMD::from_config(&MadaraConfig::default());
    assert_eq!(
        cmd.args,
        s(&[
            "--name",
            "madara",
            "--base-path",
            "../madara-db",
            "--rpc-port",
            "9944",
            "--rpc-cors",
            "*",
            "--gateway-port",
            "8080",
            "--no-l1-sync",
            "--strk-gas-price",
            "0",
            "--strk-blob-gas-price",
            "0",
            "--gas-price",
            "0",
            "--blob-gas-price",
            "0",
            "--rpc-external",
            "--rpc-admin",
            "--sequencer",
            "--feeder-gateway-enable",
            "--gateway-enable",
            "--gateway-external",
            "--chain-config-path",
            "../configs/presets/devnet.yaml",
        ])
    );
    assert!(cmd.env.is_empty());
}

#[test]
fn madara_builder_appends_in_order() {
    let mut b = MadaraCMDBuilder::new();
    b.add_arg("--rpc-port", "1234");
    b.add_flag("--sequencer");
    b.add_env("RUST_LOG", "info");
    b.add_env("RUST_LOG", "debug");
    let cmd = b.build();
    assert_eq!(cmd.args, s(&["--rpc-port", "1234", "--sequencer"]));
    assert_eq!(
        cmd.env,
        vec![
            ("RUST_LOG".to_string(), "info".to_string()),
            ("RUST_LOG".to_string(), "debug".to_string()),
        ],
        "a later binding of the same name wins"
    );
    let direct = MadaraCMD::new(cmd.args.clone(), cmd.env.clone());
    assert_eq!(direct.args, cmd.args);
}

#[test]
fn madara_config_with_extras() {
    let mut config = MadaraConfig::default();
    config.chain_config_path = None;
    config.rpc_admin = false;
    config.additional_args = s(&["--devnet"]);
    config.environment_vars = vec![("A".to_string(), "1".to_string())];
    let cmd = MadaraCMD::from_config(&config);
    assert!(!cmd.args.contains(&"--rpc-admin".to_string()));
    assert!(!cmd.args.contains(&"--chain-config-path".to_string()));
    assert_eq!(cmd.args.last().unwrap(), "--devnet");
    assert_eq!(cmd.env, vec![("A".to_string(), "1".to_string())]);
}

#[test]
fn mongo_docker_arguments() {
    let mut config = MongoConfig::default();
    config.port = 40000;
    assert_eq!(
        config.build_docker_command(),
        s(&["run", "--rm", "--name", "mongodb-service", "-p", "40000:27017", "mongo:latest"])
    );
}

#[test]
fn localstack_docker_arguments() {
    let mut config = LocalstackConfig::default();
    config.aws_prefix = Some("l2".to_string());
    let args = config.build_docker_command();
    assert_eq!(
        args,
        s(&[
            "run",
            "--rm",
            "--name",
            "localstack-service",
            "-p",
            "4566:4566",
            "-e",
            "DEBUG=1",
            "-e",
            "SERVICES=s3,dynamodb,lambda,sqs,sns",
            "-e",
            "AWS_PREFIX=l2",
            "localstack/localstack@sha256:763947722c6c8d33d5fbf7e8d52b4bddec5be35274a0998fdc6176d733375314",
        ])
    );
}

#[test]
fn pathfinder_docker_arguments() {
    let mut config = PathfinderConfig::default();
    config.data_volume = Some("/data/pf".to_string());
    let args = config.build_docker_command();
    let expect = s(&[
        "run",
        "--rm",
        "--name",
        "pathfinder-service",
        "-p",
        "9545:9545",
        "-p",
        "9090:9090",
        "-v",
        "/data/pf:/var/pathfinder",
        "eqlabs/pathfinder:v0.17.0-beta.2",
        "pathfinder",
        "--ethereum.url",
        "https://ethereum-sepolia-rpc.publicnode.com",
        "--data-directory",
        "/var/pathfinder",
        "--http-rpc",
        "0.0.0.0:9545",
        "--rpc.root-version",
        "v07",
        "--monitor-address",
        "0.0.0.0:9090",
        "--network",
        "custom",
        "--chain-id",
        "MADARA_DEVNET",
        "--gateway-url",
        "http://host.docker.internal:9943/feeder",
        "--feeder-gateway-url",
        "http://host.docker.internal:9943/feeder_gateway",
        "--storage.state-tries",
        "archive",
        "--gateway.request-timeout",
        "1000",
    ]);
    assert_eq!(args, expect);
}

#[test]
fn orchestrator_setup_command() {
    let config = setup_l2_config();
    assert_eq!(config.mode, OrchestratorMode::Setup);
    assert_eq!(
        config.build_setup_command(),
        s(&[
            "run",
            "--release",
            "-p",
            "orchestrator",
            "--features",
            "testing",
            "setup",
            "--layer=l2",
            "--aws",
            "--aws-s3",
            "--aws-sqs",
            "--aws-sns",
            "--aws-event-bridge",
            "--event-bridge-type",
            "rule",
        ])
    );
}

#[test]
fn orchestrator_run_commands() {
    assert_eq!(
        run_l2_config().build_run_command(),
        s(&[
            "run",
            "--release",
            "-p",
            "orchestrator",
            "--features",
            "testing",
            "run",
            "--layer=l2",
            "--aws",
            "--aws-s3",
            "--aws-sqs",
            "--aws-sns",
            "--settle-on-ethereum",
            "--da-on-ethereum",
            "--mongodb",
            "--atlantic",
        ])
    );
    assert_eq!(
        run_l3_config().build_run_command(),
        s(&[
            "run",
            "--release",
            "-p",
            "orchestrator",
            "--features",
            "testing",
            "run",
            "--layer=l3",
            "--aws",
            "--aws-s3",
            "--aws-sqs",
            "--aws-sns",
            // The defaults settle and store data on the settlement layer;
            // the layer-three configuration adds its own flags on top.
            "--settle-on-ethereum",
            "--settle-on-starknet",
            "--da-on-ethereum",
            "--da-on-starknet",
            "--mongodb",
            "--atlantic",
        ])
    );
}

#[test]
fn orchestrator_default_config() {
    let c = OrchestratorConfig::default();
    assert_eq!(c.mode, OrchestratorMode::Run);
    assert_eq!(c.layer, Layer::L2);
    assert!(c.aws && c.aws_s3 && c.aws_sqs && c.aws_sns);
    assert!(!c.aws_event_bridge && c.event_bridge_type.is_none());
    assert!(c.settle_on_ethereum && !c.settle_on_starknet);
    assert!(c.da_on_ethereum && !c.da_on_starknet);
    assert!(!c.sharp && c.mongodb && !c.atlantic);
    assert_eq!(c.layer.as_str(), "l2");
    assert_eq!(Layer::L3.as_str(), "l3");
    assert_eq!(OrchestratorMode::Run.as_str(), "run");
    assert_eq!(OrchestratorMode::Setup.as_str(), "setup");
}

#[test]
fn server_config_defaults_and_endpoint() {
    let c = ServerConfig::default();
    assert_eq!(c.port, 8545);
    assert_eq!(c.host, "127.0.0.1");
    assert_eq!(c.connection_attempts, 30);
    assert_eq!(c.connection_delay_ms, 1000);
    assert_eq!(c.addr(), "127.0.0.1:8545");
    assert_eq!(c.endpoint_text(), "http://127.0.0.1:8545");
}

#[test]
fn context_endpoints_follow_config() {
    let mut config = SetupConfig::default();
    config.orchestrator_port = Some(8999);
    let ctx = Context::new(&config);
    assert_eq!(ctx.anvil_endpoint, "http://127.0.0.1:8545");
    assert_eq!(ctx.localstack_endpoint, "http://127.0.0.1:4566");
    assert_eq!(ctx.mongo_connection_string, "mongodb://127.0.0.1:27017/madara");
    assert_eq!(ctx.pathfinder_endpoint, "http://127.0.0.1:9545");
    assert_eq!(ctx.orchestrator_endpoint.as_deref(), Some("http://127.0.0.1:8999"));
    assert_eq!(ctx.sequencer_endpoint, "http://127.0.0.1:9944");
    assert_eq!(ctx.bootstrapper_endpoint, "http://127.0.0.1:9945");
    assert_eq!(ctx.data_directory, "/tmp/madara-setup");
    let _ = ctx.elapsed();
}

#[test]
fn setup_config_defaults() {
    let c = SetupConfig::default();
    assert_eq!(c.layer, Layer::L2);
    assert_eq!(c.ethereum_api_key, "");
    assert_eq!(
        (c.anvil_port, c.localstack_port, c.mongo_port, c.pathfinder_port),
        (8545, 4566, 27017, 9545)
    );
    assert_eq!((c.madara_port, c.bootstrapper_port), (9944, 9945));
    assert_eq!(c.orchestrator_port, None);
    assert_eq!(c.setup_timeout, 300);
    assert!(c.wait_for_sync && !c.skip_existing_dbs);
}

#[test]
fn placeholder_services_start_and_stop() {
    let mut seq = SequencerService::start(SequencerConfig {
        port: 9944,
        data_directory: "/tmp/seq".to_string(),
    })
    .expect("placeholder start");
    assert_eq!(seq.endpoint(), "http://127.0.0.1:9944");
    assert!(seq.stop().is_ok());

    let mut boot = BootstrapperService::start(BootstrapperConfig {
        port: 9945,
        layer: Layer::L3,
    })
    .expect("placeholder start");
    assert_eq!(boot.endpoint(), "http://127.0.0.1:9945");
    assert!(boot.stop().is_ok());
}

#[test]
fn madara_config_validation() {
    assert!(MadaraConfig::default().validate_config().is_ok());
    let mut c = MadaraConfig::default();
    c.l1_endpoint = String::new();
    assert_eq!(
        c.validate_config(),
        Err(MadaraError::MissingConfig("l1_endpoint is required".to_string()))
    );
    let mut c = MadaraConfig::default();
    c.gateway_port = c.rpc_port;
    assert_eq!(
        c.validate_config(),
        Err(MadaraError::InvalidConfig(
            "RPC port and Gateway port cannot be the same".to_string()
        ))
    );
}

#[test]
fn rpc_surface_names() {
    assert_eq!(RpcType::User.service_name(), "JSON-RPC");
    assert_eq!(RpcType::Admin.service_name(), "JSON-RPC (Admin)");
}

#[test]
fn worker_trigger_names_round_trip() {
    let kinds = [
        WorkerTriggerType::Snos,
        WorkerTriggerType::Proving,
        WorkerTriggerType::ProofRegistration,
        WorkerTriggerType::DataSubmission,
        WorkerTriggerType::UpdateState,
        WorkerTriggerType::Batching,
    ];
    for k in kinds {
        assert_eq!(WorkerTriggerType::parse(&k.name()), Ok(k));
    }
    assert_eq!(WorkerTriggerType::Snos.name(), "Snos");
    assert_eq!(WorkerTriggerType::ProofRegistration.name(), "ProofRegistration");
    assert_eq!(
        WorkerTriggerType::parse("snos"),
        Err(WorkerTriggerTypeError::UnknownType("snos".to_string())),
        "names are case-sensitive"
    );
    let msg = WorkerTriggerMessage::from_worker_name("Batching").expect("known name");
    assert_eq!(msg.worker, WorkerTriggerType::Batching);
}
