//! Configuration and command building for the orchestrator service, which
//! runs either once to set up its cloud resources or persistently.

use vstd::prelude::*;

use crate::servers::anvil::opt_str_view;
use crate::servers::server::ServerError;
use crate::text::push_flag_if;
use crate::text::push_opt_arg;
use crate::text::push_str_arg;
use crate::text::strings_view;

verus! {

/// The mode the orchestrator runs in.
#[derive(Clone, Copy, Debug, PartialEq, Eq, Structural)]
pub enum OrchestratorMode {
    Run,
    Setup,
}

impl OrchestratorMode {
    /// The mode's name on the command line.
    pub fn as_str(&self) -> (r: &'static str)
        ensures
            *self is Run ==> r@ == "run"@,
            *self is Setup ==> r@ == "setup"@,
    {
        match self {
            OrchestratorMode::Run => "run",
            OrchestratorMode::Setup => "setup",
        }
    }
}

/// The layer a node settles on.
#[derive(Clone, Copy, Debug, PartialEq, Eq, Structural)]
pub enum Layer {
    L2,
    L3,
}

/// The layer's name on the command line.
pub open spec fn spec_layer_str(l: Layer) -> Seq<char> {
    match l {
        Layer::L2 => "l2"@,
        Layer::L3 => "l3"@,
    }
}

impl Layer {
    pub fn as_str(&self) -> (r: &'static str)
        ensures
            r@ == spec_layer_str(*self),
    {
        match self {
            Layer::L2 => "l2",
            Layer::L3 => "l3",
        }
    }
}

/// A failure while managing the orchestrator service.
#[derive(Clone, Debug, PartialEq, Eq)]
pub enum OrchestratorError {
    /// The repository root could not be found.
    RepositoryRootNotFound,
    /// Changing the working directory failed; carries the reported cause.
    WorkingDirectoryFailed(String),
    /// The underlying server process failed.
    Server(ServerError),
    /// Setup mode exited unsuccessfully; carries the exit code.
    SetupFailed(i32),
    /// A required dependency is absent; carries its name.
    MissingDependency(String),
}

/// Configuration of the orchestrator service.
#[derive(Clone, Debug, PartialEq, Eq)]
pub struct OrchestratorConfig {
    pub mode: OrchestratorMode,
    pub layer: Layer,
    pub port: Option<u16>,
    pub repository_root: Option<String>,
    pub environment_vars: Vec<(String, String)>,
    pub aws: bool,
    pub aws_s3: bool,
    pub aws_sqs: bool,
    pub aws_sns: bool,
    pub aws_event_bridge: bool,
    pub event_bridge_type: Option<String>,
    pub settle_on_ethereum: bool,
    pub settle_on_starknet: bool,
    pub da_on_ethereum: bool,
    pub da_on_starknet: bool,
    pub sharp: bool,
    pub mongodb: bool,
    pub atlantic: bool,
}

impl Default for OrchestratorConfig {
    fn default() -> (r: OrchestratorConfig)
        ensures
            r.mode is Run,
            r.layer is L2,
            r.port is None,
            r.repository_root is None,
            r.environment_vars@.len() == 0,
            r.aws,
            r.aws_s3,
            r.aws_sqs,
            r.aws_sns,
            !r.aws_event_bridge,
            r.event_bridge_type is None,
            r.settle_on_ethereum,
            !r.settle_on_starknet,
            r.da_on_ethereum,
            !r.da_on_starknet,
            !r.sharp,
            r.mongodb,
            !r.atlantic,
    {
        OrchestratorConfig {
            mode: OrchestratorMode::Run,
            layer: Layer::L2,
            port: None,
            repository_root: None,
            environment_vars: Vec::new(),
            aws: true,
            aws_s3: true,
            aws_sqs: true,
            aws_sns: true,
            aws_event_bridge: false,
            event_bridge_type: None,
            settle_on_ethereum: true,
            settle_on_starknet: false,
            da_on_ethereum: true,
            da_on_starknet: false,
            sharp: false,
            mongodb: true,
            atlantic: false,
        }
    }
}

/// The argument list of the setup-mode command, run through the build tool.
pub open spec fn spec_setup_command_args(c: OrchestratorConfig) -> Seq<Seq<char>> {
    seq![
        "run"@,
        "--release"@,
        "-p"@,
        "orchestrator"@,
        "--features"@,
        "testing"@,
        "setup"@,
        "--layer="@ + spec_layer_str(c.layer),
    ] + (if c.aws {
        seq!["--aws"@]
    } else {
        Seq::empty()
    }) + (if c.aws_s3 {
        seq!["--aws-s3"@]
    } else {
        Seq::empty()
    }) + (if c.aws_sqs {
        seq!["--aws-sqs"@]
    } else {
        Seq::empty()
    }) + (if c.aws_sns {
        seq!["--aws-sns"@]
    } else {
        Seq::empty()
    }) + (if c.aws_event_bridge {
        seq!["--aws-event-bridge"@]
    } else {
        Seq::empty()
    }) + (match opt_str_view(c.event_bridge_type) {
        Some(t) => seq!["--event-bridge-type"@, t],
        None => Seq::empty(),
    })
}

/// The argument list of the run-mode command, run through the build tool.
pub open spec fn spec_run_command_args(c: OrchestratorConfig) -> Seq<Seq<char>> {
    seq![
        "run"@,
        "--release"@,
        "-p"@,
        "orchestrator"@,
        "--features"@,
        "testing"@,
        "run"@,
        "--layer="@ + spec_layer_str(c.layer),
    ] + (if c.aws {
        seq!["--aws"@]
    } else {
        Seq::empty()
    }) + (if c.aws_s3 {
        seq!["--aws-s3"@]
    } else {
        Seq::empty()
    }) + (if c.aws_sqs {
        seq!["--aws-sqs"@]
    } else {
        Seq::empty()
    }) + (if c.aws_sns {
        seq!["--aws-sns"@]
    } else {
        Seq::empty()
    }) + (if c.settle_on_ethereum {
        seq!["--settle-on-ethereum"@]
    } else {
        Seq::empty()
    }) + (if c.settle_on_starknet {
        seq!["--settle-on-starknet"@]
    } else {
        Seq::empty()
    }) + (if c.da_on_ethereum {
        seq!["--da-on-ethereum"@]
    } else {
        Seq::empty()
    }) + (if c.da_on_starknet {
        seq!["--da-on-starknet"@]
    } else {
        Seq::empty()
    }) + (if c.sharp {
        seq!["--sharp"@]
    } else {
        Seq::empty()
    }) + (if c.mongodb {
        seq!["--mongodb"@]
    } else {
        Seq::empty()
    }) + (if c.atlantic {
        seq!["--atlantic"@]
    } else {
        Seq::empty()
    })
}

fn layer_flag(layer: Layer) -> (s: String)
    ensures
        s@ == "--layer="@ + spec_layer_str(layer),
{
    let mut s = "--layer=".to_owned();
    s.append(layer.as_str());
    proof {
        assert(s@ =~= "--layer="@ + spec_layer_str(layer));
    }
    s
}

impl OrchestratorConfig {
    /// Builds the setup-mode argument list.
    #[verifier::rlimit(100)]
    pub fn build_setup_command(&self) -> (args: Vec<String>)
        ensures
            strings_view(args@) == spec_setup_command_args(*self),
    {
        let mut args: Vec<String> = Vec::new();
        push_str_arg(&mut args, "run".to_owned());
        push_str_arg(&mut args, "--release".to_owned());
        push_str_arg(&mut args, "-p".to_owned());
        push_str_arg(&mut args, "orchestrator".to_owned());
        push_str_arg(&mut args, "--features".to_owned());
        push_str_arg(&mut args, "testing".to_owned());
        push_str_arg(&mut args, "setup".to_owned());
        push_str_arg(&mut args, layer_flag(self.layer));
        proof {
            assert(strings_view(args@) =~~= seq![
                "run"@,
                "--release"@,
                "-p"@,
                "orchestrator"@,
                "--features"@,
                "testing"@,
                "setup"@,
                "--layer="@ + spec_layer_str(self.layer),
            ]);
        }
        push_flag_if(&mut args, self.aws, "--aws");
        push_flag_if(&mut args, self.aws_s3, "--aws-s3");
        push_flag_if(&mut args, self.aws_sqs, "--aws-sqs");
        push_flag_if(&mut args, self.aws_sns, "--aws-sns");
        push_flag_if(&mut args, self.aws_event_bridge, "--aws-event-bridge");
        push_opt_arg(&mut args, "--event-bridge-type", &self.event_bridge_type);
        proof {
            assert(strings_view(args@) =~~= spec_setup_command_args(*self));
        }
        args
    }

    /// Builds the run-mode argument list.
    #[verifier::rlimit(100)]
    pub fn build_run_command(&self) -> (args: Vec<String>)
        ensures
            strings_view(args@) == spec_run_command_args(*self),
    {
        let mut args: Vec<String> = Vec::new();
        push_str_arg(&mut args, "run".to_owned());
        push_str_arg(&mut args, "--release".to_owned());
        push_str_arg(&mut args, "-p".to_owned());
        push_str_arg(&mut args, "orchestrator".to_owned());
        push_str_arg(&mut args, "--features".to_owned());
        push_str_arg(&mut args, "testing".to_owned());
        push_str_arg(&mut args, "run".to_owned());
        push_str_arg(&mut args, layer_flag(self.layer));
        proof {
            assert(strings_view(args@) =~~= seq![
                "run"@,
                "--release"@,
                "-p"@,
                "orchestrator"@,
                "--features"@,
                "testing"@,
                "run"@,
                "--layer="@ + spec_layer_str(self.layer),
            ]);
        }
        push_flag_if(&mut args, self.aws, "--aws");
        push_flag_if(&mut args, self.aws_s3, "--aws-s3");
        push_flag_if(&mut args, self.aws_sqs, "--aws-sqs");
        push_flag_if(&mut args, self.aws_sns, "--aws-sns");
        push_flag_if(&mut args, self.settle_on_ethereum, "--settle-on-ethereum");
        push_flag_if(&mut args, self.settle_on_starknet, "--settle-on-starknet");
        push_flag_if(&mut args, self.da_on_ethereum, "--da-on-ethereum");
        push_flag_if(&mut args, self.da_on_starknet, "--da-on-starknet");
        push_flag_if(&mut args, self.sharp, "--sharp");
        push_flag_if(&mut args, self.mongodb, "--mongodb");
        push_flag_if(&mut args, self.atlantic, "--atlantic");
        proof {
            assert(strings_view(args@) =~~= spec_run_command_args(*self));
        }
        args
    }
}

/// A setup configuration for a layer-two deployment.
pub fn setup_l2_config() -> (r: OrchestratorConfig)
    ensures
        r.mode is Setup,
        r.layer is L2,
        r.aws_event_bridge,
        opt_str_view(r.event_bridge_type) == Some("rule"@),
{
    let mut c = OrchestratorConfig::default();
    c.mode = OrchestratorMode::Setup;
    c.layer = Layer::L2;
    c.aws_event_bridge = true;
    c.event_bridge_type = Some("rule".to_owned());
    c
}

/// A setup configuration for a layer-three deployment.
pub fn setup_l3_config() -> (r: OrchestratorConfig)
    ensures
        r.mode is Setup,
        r.layer is L3,
        r.aws_event_bridge,
        opt_str_view(r.event_bridge_type) == Some("rule"@),
{
    let mut c = OrchestratorConfig::default();
    c.mode = OrchestratorMode::Setup;
    c.layer = Layer::L3;
    c.aws_event_bridge = true;
    c.event_bridge_type = Some("rule".to_owned());
    c
}

/// A run configuration for a layer-two deployment.
pub fn run_l2_config() -> (r: OrchestratorConfig)
    ensures
        r.mode is Run,
        r.layer is L2,
        r.settle_on_ethereum,
        r.da_on_ethereum,
        r.mongodb,
        r.atlantic,
{
    let mut c = OrchestratorConfig::default();
    c.mode = OrchestratorMode::Run;
    c.layer = Layer::L2;
    c.settle_on_ethereum = true;
    c.da_on_ethereum = true;
    c.mongodb = true;
    c.atlantic = true;
    c
}

/// A run configuration for a layer-three deployment.
pub fn run_l3_config() -> (r: OrchestratorConfig)
    ensures
        r.mode is Run,
        r.layer is L3,
        r.settle_on_starknet,
        r.da_on_starknet,
        r.mongodb,
        r.atlantic,
{
    let mut c = OrchestratorConfig::default();
    c.mode = OrchestratorMode::Run;
    c.layer = Layer::L3;
    c.settle_on_starknet = true;
    c.da_on_starknet = true;
    c.mongodb = true;
    c.atlantic = true;
    c
}

/// The services the orchestrator depends on.
pub fn orchestrator_dependencies() -> (r: Vec<String>)
    ensures
        strings_view(r@) =~~= seq![
            "anvil"@,
            "madara"@,
            "pathfinder"@,
            "bootstrapper_l1"@,
            "bootstrapper_l2"@,
            "atlantic"@,
            "localstack"@,
            "mongodb"@,
        ],
{
    let mut r: Vec<String> = Vec::new();
    r.push("anvil".to_owned());
    r.push("madara".to_owned());
    r.push("pathfinder".to_owned());
    r.push("bootstrapper_l1".to_owned());
    r.push("bootstrapper_l2".to_owned());
    r.push("atlantic".to_owned());
    r.push("localstack".to_owned());
    r.push("mongodb".to_owned());
    proof {
        assert(strings_view(r@) =~~= seq![
            "anvil"@,
            "madara"@,
            "pathfinder"@,
            "bootstrapper_l1"@,
            "bootstrapper_l2"@,
            "atlantic"@,
            "localstack"@,
            "mongodb"@,
        ]);
    }
    r
}

} // verus!
